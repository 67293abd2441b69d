use vstd::prelude::*;
use crate::pkt_parser::{
    be16, ether_type_of, ipv4_header_len, protocol_of, DecodeError, EtherType, EthernetHeader,
    Header, Ipv4Header, Ipv6Header, Protocol, TCPHeader, UDPHeader,
};
use crate::text::{dotted, dotted_string, hex_bytes, hex_string};

verus! {

/// A capture timestamp: whole seconds and the microseconds past them.
#[derive(Debug, Clone, Copy, PartialEq, Eq, Structural)]
pub struct TimeVal {
    pub sec: u32,
    pub u_sec: u32,
}

/// A timestamp counted in microseconds.
pub open spec fn micros(sec: u32, u_sec: u32) -> int {
    sec as int * 1_000_000 + u_sec as int
}

impl TimeVal {
    /// The timestamp in microseconds.
    pub fn to_micros(&self) -> (r: u64)
        ensures
            r == micros(self.sec, self.u_sec),
    {
        assert(self.sec as int * 1_000_000 <= 4_294_967_295int * 1_000_000) by (nonlinear_arith)
            requires
                self.sec <= 4_294_967_295u32,
        ;
        (self.sec as u64) * 1_000_000 + (self.u_sec as u64)
    }

    /// The timestamp of a count of microseconds.
    pub fn from_micros(t: u64) -> (r: TimeVal)
        requires
            t / 1_000_000 <= u32::MAX,
        ensures
            r.sec == t / 1_000_000,
            r.u_sec == t % 1_000_000,
            micros(r.sec, r.u_sec) == t,
    {
        let r = TimeVal { sec: (t / 1_000_000) as u32, u_sec: (t % 1_000_000) as u32 };
        assert(micros(r.sec, r.u_sec) == t) by (nonlinear_arith)
            requires
                r.sec == t / 1_000_000,
                r.u_sec == t % 1_000_000,
        ;
        r
    }
}

/// A captured frame: its bytes and when it was captured.
#[derive(Debug, Clone)]
pub struct PacketExt {
    pub data: Vec<u8>,
    pub timestamp: TimeVal,
}

impl PacketExt {
    pub fn new(data: &[u8], timestamp: TimeVal) -> (r: PacketExt)
        ensures
            r.data@ == data@,
            r.timestamp == timestamp,
    {
        PacketExt { data: vstd::slice::slice_to_vec(data), timestamp }
    }
}

/// A capture interface: its name, its description if any, and the bytes of each of its
/// own addresses (four for IPv4, sixteen for IPv6).
#[derive(Debug, Clone)]
pub struct Device {
    pub name: String,
    pub desc: Option<String>,
    pub addresses: Vec<Vec<u8>>,
}

/// An address as the decoder renders it: dotted decimal for four bytes, hex otherwise.
pub open spec fn render_address(a: Seq<u8>) -> Seq<char> {
    if a.len() == 4 {
        dotted(a)
    } else {
        hex_bytes(a)
    }
}

/// Renders an address as the decoder does: dotted decimal for four bytes, hex otherwise.
pub fn address_to_string(a: &[u8]) -> (r: String)
    ensures
        r@ == render_address(a@),
{
    if a.len() == 4 {
        dotted_string(a)
    } else {
        hex_string(a)
    }
}

impl Device {
    /// The device's own addresses, rendered.
    pub open spec fn local_addresses(&self) -> Seq<Seq<char>> {
        self.addresses@.map_values(|a: Vec<u8>| render_address(a@))
    }
}

/// Which way a packet went, relative to the interface.
#[derive(Debug, Clone, Copy, PartialEq, Eq, Structural)]
pub enum Direction {
    Transmitted,
    Received,
}

/// A packet was sent by the interface when its source is one of the interface's addresses.
pub open spec fn direction_of(local: Seq<Seq<char>>, src: Seq<char>) -> Direction {
    if local.contains(src) {
        Direction::Transmitted
    } else {
        Direction::Received
    }
}

/// The direction of a packet with source address `src`, relative to the device.
pub fn get_direction(device: &Device, src: &String) -> (r: Direction)
    ensures
        r == direction_of(device.local_addresses(), src@),
{
    let mut i: usize = 0;
    while i < device.addresses.len()
        invariant
            i <= device.addresses@.len(),
            forall|j: int| 0 <= j < i ==> device.local_addresses()[j] != src@,
        decreases device.addresses@.len() - i,
    {
        let a = address_to_string(device.addresses[i].as_slice());
        if a == *src {
            assert(device.local_addresses()[i as int] == src@);
            return Direction::Transmitted;
        }
        i = i + 1;
    }
    assert(!device.local_addresses().contains(src@));
    Direction::Received
}

/// What the aggregator learns of one packet: the peer's address and port, the transport
/// protocol, the bytes of the transport payload, and the timestamp in microseconds.
#[derive(Debug, Clone)]
pub struct PacketInfo {
    pub address: String,
    pub port: u16,
    pub protocol: Protocol,
    pub byte_transmitted: u64,
    pub time_stamp: u64,
}

impl PacketInfo {
    pub fn new(address: String, port: u16, protocol: Protocol, byte_transmitted: u64, time_stamp: u64) -> (r: PacketInfo)
        ensures
            r.address == address,
            r.port == port,
            r.protocol == protocol,
            r.byte_transmitted == byte_transmitted,
            r.time_stamp == time_stamp,
    {
        PacketInfo { address, port, protocol, byte_transmitted, time_stamp }
    }
}

/// The ports of a transport header and the length of its payload, if the segment is long
/// enough for its header: twenty bytes for TCP, eight for UDP.
pub open spec fn transport_of(protocol: Protocol, seg: Seq<u8>) -> Option<(u16, u16, nat)> {
    let hl: nat = if protocol == Protocol::TCP {
        20
    } else {
        8
    };
    if seg.len() < hl {
        None
    } else {
        Some((be16(seg[0], seg[1]), be16(seg[2], seg[3]), (seg.len() - hl) as nat))
    }
}

/// The network header of a frame: source, destination, protocol and what follows it;
/// none where the frame is not IPv4 or IPv6 over Ethernet, is cut short, or carries
/// neither TCP nor UDP.
pub open spec fn network_of(data: Seq<u8>) -> Option<(Seq<char>, Seq<char>, Protocol, Seq<u8>)> {
    if data.len() < 14 {
        None
    } else {
        let ip = data.subrange(14, data.len() as int);
        match ether_type_of(be16(data[12], data[13])) {
            Some(EtherType::Ipv4) => if ip.len() < 20 || ip.len() < ipv4_header_len(ip[0])
                || protocol_of(ip[9]) == Protocol::Unknown {
                None
            } else {
                Some(
                    (
                        dotted(ip.subrange(12, 16)),
                        dotted(ip.subrange(16, 20)),
                        protocol_of(ip[9]),
                        ip.subrange(ipv4_header_len(ip[0]), ip.len() as int),
                    ),
                )
            },
            Some(EtherType::Ipv6) => if ip.len() < 40 || protocol_of(ip[6]) == Protocol::Unknown {
                None
            } else {
                Some(
                    (
                        hex_bytes(ip.subrange(8, 24)),
                        hex_bytes(ip.subrange(24, 40)),
                        protocol_of(ip[6]),
                        ip.subrange(40, ip.len() as int),
                    ),
                )
            },
            _ => None,
        }
    }
}

/// What a frame tells the aggregator: the peer's address and port, the protocol and the
/// length of the transport payload. The peer is the destination of a packet that the
/// interface sent and the source of any other.
pub open spec fn frame_info(local: Seq<Seq<char>>, data: Seq<u8>) -> Option<
    (Seq<char>, u16, Protocol, nat),
> {
    match network_of(data) {
        None => None,
        Some((src, dest, protocol, seg)) => match transport_of(protocol, seg) {
            None => None,
            Some((sport, dport, len)) => if direction_of(local, src) == Direction::Transmitted {
                Some((dest, dport, protocol, len))
            } else {
                Some((src, sport, protocol, len))
            },
        },
    }
}

/// The byte count of a decoded frame is that of its transport payload, which leaves out
/// at least the Ethernet header and a transport header: it is never the frame's size.
pub proof fn lemma_payload_excludes_headers(local: Seq<Seq<char>>, data: Seq<u8>)
    ensures
        frame_info(local, data) matches Some((_, _, _, len)) ==> len + 22 <= data.len(),
{
}

fn error(msg: &str) -> (r: DecodeError) {
    DecodeError { msg: msg.to_string() }
}

/// Reads a frame through its Ethernet, IP and transport headers and tells which flow it
/// belongs to and how many payload bytes it carries; the bytes are those after the
/// transport header, never the size of the frame.
pub fn decode_info_from_packet(device: &Device, packet: PacketExt) -> (r: Result<PacketInfo, DecodeError>)
    ensures
        match frame_info(device.local_addresses(), packet.data@) {
            None => r is Err,
            Some((address, port, protocol, len)) => {
                &&& r is Ok
                &&& r->Ok_0.address@ == address
                &&& r->Ok_0.port == port
                &&& r->Ok_0.protocol == protocol
                &&& r->Ok_0.byte_transmitted == len
                &&& r->Ok_0.time_stamp == micros(packet.timestamp.sec, packet.timestamp.u_sec)
            },
        },
{
    let ghost data = packet.data@;
    let ts = packet.timestamp.to_micros();
    let (eth_res, eth_payload) = EthernetHeader::decode(packet.data);
    let eth = match eth_res {
        Ok(h) => h,
        Err(e) => return Err(e),
    };
    let (src, dest, protocol, seg) = match eth.get_ether_type() {
        EtherType::Ipv4 => {
            let (ip_res, ip_payload) = Ipv4Header::decode(eth_payload);
            let ip = match ip_res {
                Ok(h) => h,
                Err(e) => return Err(e),
            };
            (ip.get_src_address(), ip.get_dest_address(), ip.get_protocol(), ip_payload)
        },
        EtherType::Ipv6 => {
            let (ip_res, ip_payload) = Ipv6Header::decode(eth_payload);
            let ip = match ip_res {
                Ok(h) => h,
                Err(e) => return Err(e),
            };
            (ip.get_src_address(), ip.get_dest_address(), ip.get_protocol(), ip_payload)
        },
        EtherType::ARP => return Err(error("Cannot decode other level 3 header")),
    };
    assert(network_of(data) == Some((src@, dest@, protocol, seg@)) || protocol == Protocol::Unknown);
    let (sport, dport, len) = match protocol {
        Protocol::TCP => {
            let (res, payload) = TCPHeader::decode(seg);
            let h = match res {
                Ok(h) => h,
                Err(e) => return Err(e),
            };
            (h.get_src_port(), h.get_dest_port(), payload.len())
        },
        Protocol::UDP => {
            let (res, payload) = UDPHeader::decode(seg);
            let h = match res {
                Ok(h) => h,
                Err(e) => return Err(e),
            };
            (h.get_src_port(), h.get_dest_port(), payload.len())
        },
        Protocol::Unknown => return Err(error("Unknown lev 4 protocol")),
    };
    match get_direction(device, &src) {
        Direction::Transmitted => Ok(PacketInfo::new(dest, dport, protocol, len as u64, ts)),
        Direction::Received => Ok(PacketInfo::new(src, sport, protocol, len as u64, ts)),
    }
}

} // verus!
