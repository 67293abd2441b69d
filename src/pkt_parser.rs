use vstd::prelude::*;
use crate::text::{dotted, dotted_string, hex_bytes, hex_string, push_radix, radix};

verus! {

/// Renders a MAC address as lower-case hex, two digits a byte, without separators.
pub fn mac_address_to_string(address: &[u8]) -> (r: String)
    ensures
        r@ == hex_bytes(address@),
{
    hex_string(address)
}

/// Renders an IPv4 address as dotted decimal.
pub fn ipv4_address_to_string(address: &[u8]) -> (r: String)
    ensures
        r@ == dotted(address@),
{
    dotted_string(address)
}

/// Renders an IPv6 address as lower-case hex, two digits a byte, without separators.
pub fn ipv6_address_to_string(address: &[u8]) -> (r: String)
    ensures
        r@ == hex_bytes(address@),
{
    hex_string(address)
}

/// The big-endian 16-bit word made of two bytes.
pub open spec fn be16(hi: u8, lo: u8) -> u16 {
    (hi as int * 256 + lo as int) as u16
}

fn read_be16(hi: u8, lo: u8) -> (r: u16)
    ensures
        r == be16(hi, lo),
{
    (hi as u16) * 256 + (lo as u16)
}

/// The bytes of `data` from `from` on, in a vector of their own.
fn tail_from(data: Vec<u8>, from: usize) -> (r: Vec<u8>)
    requires
        from <= data@.len(),
    ensures
        r@ == data@.subrange(from as int, data@.len() as int),
{
    let mut d = data;
    d.split_off(from)
}

/// A header that is read from the front of a byte buffer.
///
/// `decode` hands back the header, or the reason it could not be read, together with
/// what follows the header; on an error it hands back the whole buffer.
pub trait Header: Sized {
    /// What `decode` returns for `data`.
    spec fn decoded(data: Seq<u8>, r: Result<Self, DecodeError>, rest: Seq<u8>) -> bool;

    fn decode(data: Vec<u8>) -> (r: (Result<Self, DecodeError>, Vec<u8>))
        ensures
            Self::decoded(data@, r.0, r.1@),
    ;
}

/// Why a header could not be read from a buffer.
#[derive(Debug, Clone)]
pub struct DecodeError {
    pub msg: String,
}

/// The protocol that an Ethernet frame carries.
#[derive(Debug, Clone, Copy, PartialEq, Eq, Structural)]
pub enum EtherType {
    Ipv4,
    Ipv6,
    /// Address resolution protocol
    ARP,
}

/// The ether type that a type word stands for, if any.
pub open spec fn ether_type_of(word: u16) -> Option<EtherType> {
    if word == 0x0800 {
        Some(EtherType::Ipv4)
    } else if word == 0x0806 {
        Some(EtherType::ARP)
    } else if word == 0x86DD {
        Some(EtherType::Ipv6)
    } else {
        None
    }
}

/// The message of the error for an ether type word that stands for no known protocol.
pub open spec fn unknown_ether_type_msg(word: u16) -> Seq<char> {
    "Cannot get the correct ether type, received 0x"@ + radix(word as nat, 16)
}

#[derive(Debug, Clone)]
pub struct EthernetHeader {
    dest: String,
    src: String,
    ether_type: EtherType,
}

impl EthernetHeader {
    pub closed spec fn dest_view(&self) -> Seq<char> {
        self.dest@
    }

    pub closed spec fn src_view(&self) -> Seq<char> {
        self.src@
    }

    pub closed spec fn ether_type_view(&self) -> EtherType {
        self.ether_type
    }

    pub fn get_ether_type(&self) -> (r: EtherType)
        ensures
            r == self.ether_type_view(),
    {
        self.ether_type
    }

    pub fn get_src_address(&self) -> (r: String)
        ensures
            r@ == self.src_view(),
    {
        self.src.clone()
    }

    pub fn get_dest_address(&self) -> (r: String)
        ensures
            r@ == self.dest_view(),
    {
        self.dest.clone()
    }
}

impl Header for EthernetHeader {
    /// Fourteen bytes: destination MAC, source MAC, type word; the payload follows.
    open spec fn decoded(data: Seq<u8>, r: Result<Self, DecodeError>, rest: Seq<u8>) -> bool {
        if data.len() < 14 {
            r is Err && rest == data
        } else {
            match ether_type_of(be16(data[12], data[13])) {
                None => {
                    &&& r is Err
                    &&& r->Err_0.msg@ == unknown_ether_type_msg(be16(data[12], data[13]))
                    &&& rest == data
                },
                Some(t) => {
                    &&& r is Ok
                    &&& r->Ok_0.dest_view() == hex_bytes(data.subrange(0, 6))
                    &&& r->Ok_0.src_view() == hex_bytes(data.subrange(6, 12))
                    &&& r->Ok_0.ether_type_view() == t
                    &&& rest == data.subrange(14, data.len() as int)
                },
            }
        }
    }

    fn decode(data: Vec<u8>) -> (r: (Result<Self, DecodeError>, Vec<u8>)) {
        if data.len() < 14 {
            return (
                Err(DecodeError { msg: "The frame is shorter than an Ethernet header".to_string() }),
                data,
            );
        }
        let word = read_be16(data[12], data[13]);
        let ether_type = if word == 0x0800 {
            EtherType::Ipv4
        } else if word == 0x0806 {
            EtherType::ARP
        } else if word == 0x86DD {
            EtherType::Ipv6
        } else {
            let mut msg = "Cannot get the correct ether type, received 0x".to_string();
            push_radix(&mut msg, word as u64, 16);
            return (Err(DecodeError { msg }), data);
        };
        let dest = mac_address_to_string(&data.as_slice()[0..6]);
        let src = mac_address_to_string(&data.as_slice()[6..12]);
        let payload = tail_from(data, 14);
        (Ok(EthernetHeader { dest, src, ether_type }), payload)
    }
}

/// The transport protocol that an IP packet carries.
#[derive(Debug, Clone, Copy, PartialEq, Eq, Structural)]
pub enum Protocol {
    TCP,
    UDP,
    Unknown,
}

impl Protocol {
    /// The name of the protocol, as the report writes it.
    pub fn name(&self) -> (r: String)
        ensures
            r@ == protocol_name(*self),
    {
        match self {
            Protocol::TCP => "TCP".to_string(),
            Protocol::UDP => "UDP".to_string(),
            Protocol::Unknown => "Unknown".to_string(),
        }
    }
}

/// The name of a protocol, as the report writes it.
pub open spec fn protocol_name(p: Protocol) -> Seq<char> {
    match p {
        Protocol::TCP => "TCP"@,
        Protocol::UDP => "UDP"@,
        Protocol::Unknown => "Unknown"@,
    }
}

/// The transport protocol that a protocol number stands for.
pub open spec fn protocol_of(number: u8) -> Protocol {
    if number == 0x06 {
        Protocol::TCP
    } else if number == 0x11 {
        Protocol::UDP
    } else {
        Protocol::Unknown
    }
}

fn read_protocol(number: u8) -> (r: Protocol)
    ensures
        r == protocol_of(number),
{
    if number == 0x06 {
        Protocol::TCP
    } else if number == 0x11 {
        Protocol::UDP
    } else {
        Protocol::Unknown
    }
}

/// The length in bytes of an IPv4 header, from its first byte.
pub open spec fn ipv4_header_len(first: u8) -> int {
    (first as int % 16) * 4
}

#[derive(Debug, Clone)]
pub struct Ipv4Header {
    dest: String,
    src: String,
    protocol: Protocol,
}

impl Ipv4Header {
    pub closed spec fn dest_view(&self) -> Seq<char> {
        self.dest@
    }

    pub closed spec fn src_view(&self) -> Seq<char> {
        self.src@
    }

    pub closed spec fn protocol_view(&self) -> Protocol {
        self.protocol
    }

    pub fn get_protocol(&self) -> (r: Protocol)
        ensures
            r == self.protocol_view(),
    {
        self.protocol
    }

    pub fn get_src_address(&self) -> (r: String)
        ensures
            r@ == self.src_view(),
    {
        self.src.clone()
    }

    pub fn get_dest_address(&self) -> (r: String)
        ensures
            r@ == self.dest_view(),
    {
        self.dest.clone()
    }
}

impl Header for Ipv4Header {
    /// At least twenty bytes and no fewer than the header length that the first byte gives;
    /// the protocol number at byte 9 must name TCP or UDP; the addresses stand at bytes
    /// 12 to 15 and 16 to 19; the payload follows the header.
    open spec fn decoded(data: Seq<u8>, r: Result<Self, DecodeError>, rest: Seq<u8>) -> bool {
        if data.len() < 20 || data.len() < ipv4_header_len(data[0]) || protocol_of(data[9])
            == Protocol::Unknown {
            r is Err && rest == data
        } else {
            &&& r is Ok
            &&& r->Ok_0.src_view() == dotted(data.subrange(12, 16))
            &&& r->Ok_0.dest_view() == dotted(data.subrange(16, 20))
            &&& r->Ok_0.protocol_view() == protocol_of(data[9])
            &&& rest == data.subrange(ipv4_header_len(data[0]), data.len() as int)
        }
    }

    fn decode(data: Vec<u8>) -> (r: (Result<Self, DecodeError>, Vec<u8>)) {
        let len = data.len();
        if len < 20 {
            return (
                Err(DecodeError { msg: "The packet is shorter than an IPv4 header".to_string() }),
                data,
            );
        }
        let header_len = ((data[0] % 16) as usize) * 4;
        if len < header_len {
            return (
                Err(DecodeError { msg: "The packet is shorter than its IPv4 header length".to_string() }),
                data,
            );
        }
        let protocol = read_protocol(data[9]);
        if protocol == Protocol::Unknown {
            let mut msg = "Unable to identify level 4 protocol. Received 0x".to_string();
            push_radix(&mut msg, data[9] as u64, 16);
            return (Err(DecodeError { msg }), data);
        }
        let src = ipv4_address_to_string(&data.as_slice()[12..16]);
        let dest = ipv4_address_to_string(&data.as_slice()[16..20]);
        let payload = tail_from(data, header_len);
        (Ok(Ipv4Header { src, dest, protocol }), payload)
    }
}

#[derive(Debug, Clone)]
pub struct Ipv6Header {
    dest: String,
    src: String,
    protocol: Protocol,
}

impl Ipv6Header {
    pub closed spec fn dest_view(&self) -> Seq<char> {
        self.dest@
    }

    pub closed spec fn src_view(&self) -> Seq<char> {
        self.src@
    }

    pub closed spec fn protocol_view(&self) -> Protocol {
        self.protocol
    }

    pub fn get_protocol(&self) -> (r: Protocol)
        ensures
            r == self.protocol_view(),
    {
        self.protocol
    }

    pub fn get_src_address(&self) -> (r: String)
        ensures
            r@ == self.src_view(),
    {
        self.src.clone()
    }

    pub fn get_dest_address(&self) -> (r: String)
        ensures
            r@ == self.dest_view(),
    {
        self.dest.clone()
    }
}

impl Header for Ipv6Header {
    /// A fixed header of forty bytes: the next header number at byte 6, the addresses at
    /// bytes 8 to 23 and 24 to 39; the payload follows. A next header other than TCP or
    /// UDP is kept as `Unknown`.
    open spec fn decoded(data: Seq<u8>, r: Result<Self, DecodeError>, rest: Seq<u8>) -> bool {
        if data.len() < 40 {
            r is Err && rest == data
        } else {
            &&& r is Ok
            &&& r->Ok_0.src_view() == hex_bytes(data.subrange(8, 24))
            &&& r->Ok_0.dest_view() == hex_bytes(data.subrange(24, 40))
            &&& r->Ok_0.protocol_view() == protocol_of(data[6])
            &&& rest == data.subrange(40, data.len() as int)
        }
    }

    fn decode(data: Vec<u8>) -> (r: (Result<Self, DecodeError>, Vec<u8>)) {
        if data.len() < 40 {
            return (
                Err(DecodeError { msg: "The packet is shorter than an IPv6 header".to_string() }),
                data,
            );
        }
        let protocol = read_protocol(data[6]);
        let src = ipv6_address_to_string(&data.as_slice()[8..24]);
        let dest = ipv6_address_to_string(&data.as_slice()[24..40]);
        let payload = tail_from(data, 40);
        (Ok(Ipv6Header { src, dest, protocol }), payload)
    }
}

#[derive(Debug, Clone)]
pub struct UDPHeader {
    dest: u16,
    src: u16,
}

impl UDPHeader {
    pub closed spec fn src_view(&self) -> u16 {
        self.src
    }

    pub closed spec fn dest_view(&self) -> u16 {
        self.dest
    }

    pub fn get_src_port(&self) -> (r: u16)
        ensures
            r == self.src_view(),
    {
        self.src
    }

    pub fn get_dest_port(&self) -> (r: u16)
        ensures
            r == self.dest_view(),
    {
        self.dest
    }
}

impl Header for UDPHeader {
    /// Eight bytes, the ports big-endian at bytes 0 to 1 and 2 to 3; the payload follows.
    open spec fn decoded(data: Seq<u8>, r: Result<Self, DecodeError>, rest: Seq<u8>) -> bool {
        if data.len() < 8 {
            r is Err && rest == data
        } else {
            &&& r is Ok
            &&& r->Ok_0.src_view() == be16(data[0], data[1])
            &&& r->Ok_0.dest_view() == be16(data[2], data[3])
            &&& rest == data.subrange(8, data.len() as int)
        }
    }

    fn decode(data: Vec<u8>) -> (r: (Result<Self, DecodeError>, Vec<u8>)) {
        if data.len() < 8 {
            return (
                Err(DecodeError { msg: "The datagram is shorter than a UDP header".to_string() }),
                data,
            );
        }
        let src = read_be16(data[0], data[1]);
        let dest = read_be16(data[2], data[3]);
        let payload = tail_from(data, 8);
        (Ok(UDPHeader { dest, src }), payload)
    }
}

#[derive(Debug, Clone)]
pub struct TCPHeader {
    dest: u16,
    src: u16,
}

impl TCPHeader {
    pub closed spec fn src_view(&self) -> u16 {
        self.src
    }

    pub closed spec fn dest_view(&self) -> u16 {
        self.dest
    }

    pub fn get_src_port(&self) -> (r: u16)
        ensures
            r == self.src_view(),
    {
        self.src
    }

    pub fn get_dest_port(&self) -> (r: u16)
        ensures
            r == self.dest_view(),
    {
        self.dest
    }
}

impl Header for TCPHeader {
    /// A header read as twenty bytes, options not parsed: the ports big-endian at bytes
    /// 0 to 1 and 2 to 3; the payload is taken from byte 20 on.
    open spec fn decoded(data: Seq<u8>, r: Result<Self, DecodeError>, rest: Seq<u8>) -> bool {
        if data.len() < 20 {
            r is Err && rest == data
        } else {
            &&& r is Ok
            &&& r->Ok_0.src_view() == be16(data[0], data[1])
            &&& r->Ok_0.dest_view() == be16(data[2], data[3])
            &&& rest == data.subrange(20, data.len() as int)
        }
    }

    fn decode(data: Vec<u8>) -> (r: (Result<Self, DecodeError>, Vec<u8>)) {
        if data.len() < 20 {
            return (
                Err(DecodeError { msg: "The segment is shorter than a TCP header".to_string() }),
                data,
            );
        }
        let src = read_be16(data[0], data[1]);
        let dest = read_be16(data[2], data[3]);
        let payload = tail_from(data, 20);
        (Ok(TCPHeader { dest, src }), payload)
    }
}

} // verus!
