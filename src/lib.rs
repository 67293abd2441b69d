pub mod text;
pub mod pkt_parser;
pub mod flow;
pub mod packet;
pub mod sniffer;
pub mod aggregate;
pub mod report;
pub mod shared;
pub mod collect_signal;
pub mod collect_signals;
pub mod command;
