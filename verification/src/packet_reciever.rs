//! What the packet sniffer makes of the frames it captures, and how it finds
//! the interface to listen on.

use pnet::packet::ethernet::EthernetPacket;
use pnet::packet::ipv4::Ipv4Packet;
use pnet::packet::Packet;
use vstd::prelude::*;

verus! {

/// A big-endian 16-bit number.
pub open spec fn be16(hi: u8, lo: u8) -> u16 {
    (hi as int * 256 + lo as int) as u16
}

/// The EtherType of an Ethernet frame, read by pnet's `get_ethertype` on an
/// `EthernetPacket` over the frame. `EthernetPacket::new` refuses frames
/// shorter than the 14-byte header; the type is bytes 12 and 13, big-endian.
#[verifier::external_body]
fn ethernet_ethertype(frame: &[u8]) -> (ethertype: Option<u16>)
    ensures
        ethertype.is_some() <==> frame@.len() >= 14,
        ethertype matches Some(t) ==> t == be16(frame@[12], frame@[13]),
{
    match EthernetPacket::new(frame) {
        Some(p) => Some(p.get_ethertype().0),
        None => None,
    }
}

/// The payload of an Ethernet frame, as pnet's `payload` on an
/// `EthernetPacket` gives it: everything after the 14-byte header (none for
/// frames shorter than the header, which `EthernetPacket::new` refuses).
#[verifier::external_body]
fn ethernet_payload(frame: &[u8]) -> (payload: Option<Vec<u8>>)
    ensures
        payload.is_some() <==> frame@.len() >= 14,
        payload matches Some(p) ==> p@ == frame@.subrange(14, frame@.len() as int),
{
    match EthernetPacket::new(frame) {
        Some(p) => Some(p.payload().to_vec()),
        None => None,
    }
}

/// The source address of an IPv4 packet, from pnet's `get_source` on an
/// `Ipv4Packet`: bytes 12 to 15. `Ipv4Packet::new` refuses packets shorter
/// than the 20-byte fixed header.
#[verifier::external_body]
fn ipv4_source(packet: &[u8]) -> (source: Option<[u8; 4]>)
    ensures
        source.is_some() <==> packet@.len() >= 20,
        source matches Some(a) ==> a@ == packet@.subrange(12, 16),
{
    match Ipv4Packet::new(packet) {
        Some(p) => Some(p.get_source().octets()),
        None => None,
    }
}

/// The destination address of an IPv4 packet, from pnet's `get_destination`
/// on an `Ipv4Packet`: bytes 16 to 19 (packets of at least 20 bytes).
#[verifier::external_body]
fn ipv4_destination(packet: &[u8]) -> (destination: Option<[u8; 4]>)
    ensures
        destination.is_some() <==> packet@.len() >= 20,
        destination matches Some(a) ==> a@ == packet@.subrange(16, 20),
{
    match Ipv4Packet::new(packet) {
        Some(p) => Some(p.get_destination().octets()),
        None => None,
    }
}

/// The next-level protocol number of an IPv4 packet, from pnet's
/// `get_next_level_protocol` on an `Ipv4Packet`: byte 9 (packets of at least
/// 20 bytes).
#[verifier::external_body]
fn ipv4_protocol(packet: &[u8]) -> (protocol: Option<u8>)
    ensures
        protocol.is_some() <==> packet@.len() >= 20,
        protocol matches Some(n) ==> n == packet@[9],
{
    match Ipv4Packet::new(packet) {
        Some(p) => Some(p.get_next_level_protocol().0),
        None => None,
    }
}

/// The total length field of an IPv4 packet, from pnet's `get_total_length`
/// on an `Ipv4Packet`: bytes 2 and 3, big-endian (packets of at least 20
/// bytes).
#[verifier::external_body]
fn ipv4_total_length(packet: &[u8]) -> (length: Option<u16>)
    ensures
        length.is_some() <==> packet@.len() >= 20,
        length matches Some(n) ==> n == be16(packet@[2], packet@[3]),
{
    match Ipv4Packet::new(packet) {
        Some(p) => Some(p.get_total_length()),
        None => None,
    }
}

/// The EtherType of IPv4.
pub const ETHERTYPE_IPV4: u16 = 0x0800;

/// The EtherType of ARP.
pub const ETHERTYPE_ARP: u16 = 0x0806;

/// What the sniffer reports of a frame.
#[derive(Debug, Clone, Copy, PartialEq, Eq)]
pub enum PacketSummary {
    /// An IPv4 packet: its addresses, protocol number and total length.
    Ipv4 { source: [u8; 4], destination: [u8; 4], protocol: u8, total_length: u16 },
    /// An ARP packet.
    Arp,
}

/// The report on a captured frame: for an Ethernet frame carrying IPv4 with a
/// full header, its addresses, protocol and length; for one carrying ARP,
/// just that; nothing for short frames, short IPv4 packets and other types.
pub open spec fn summary_is(frame: Seq<u8>, summary: Option<PacketSummary>) -> bool {
    if frame.len() < 14 {
        summary.is_none()
    } else if be16(frame[12], frame[13]) == ETHERTYPE_IPV4 {
        let ip = frame.subrange(14, frame.len() as int);
        if ip.len() < 20 {
            summary.is_none()
        } else {
            summary matches Some(PacketSummary::Ipv4 { source, destination, protocol, total_length })
                && source@ == ip.subrange(12, 16) && destination@ == ip.subrange(16, 20)
                && protocol == ip[9] && total_length == be16(ip[2], ip[3])
        }
    } else if be16(frame[12], frame[13]) == ETHERTYPE_ARP {
        summary == Some(PacketSummary::Arp)
    } else {
        summary.is_none()
    }
}

/// Reads a captured frame as Ethernet and reports what it carries (see
/// `summary_is`).
pub fn handle_packet(frame: &[u8]) -> (summary: Option<PacketSummary>)
    ensures
        summary_is(frame@, summary),
{
    let ethertype = match ethernet_ethertype(frame) {
        Some(t) => t,
        None => return None,
    };
    if ethertype == ETHERTYPE_IPV4 {
        let payload = match ethernet_payload(frame) {
            Some(p) => p,
            None => return None,
        };
        let ip = payload.as_slice();
        let source = ipv4_source(ip);
        let destination = ipv4_destination(ip);
        let protocol = ipv4_protocol(ip);
        let total_length = ipv4_total_length(ip);
        match (source, destination, protocol, total_length) {
            (Some(source), Some(destination), Some(protocol), Some(total_length)) => {
                Some(PacketSummary::Ipv4 { source, destination, protocol, total_length })
            },
            _ => None,
        }
    } else if ethertype == ETHERTYPE_ARP {
        Some(PacketSummary::Arp)
    } else {
        None
    }
}

/// What the sniffer reports, read off the frame's bytes: frames shorter
/// than the Ethernet header report nothing; a frame of type 0x0800 (bytes 12
/// and 13) with a full 20-byte IPv4 header after the Ethernet header reports
/// that header's total length (frame bytes 16 and 17, big-endian), protocol
/// (byte 23), source (bytes 26 to 29) and destination (bytes 30 to 33); a
/// shorter one reports nothing; a frame of type 0x0806 reports ARP; any
/// other type reports nothing.
pub proof fn lemma_frame_report(frame: Seq<u8>, summary: Option<PacketSummary>)
    requires
        summary_is(frame, summary),
    ensures
        frame.len() < 14 ==> summary.is_none(),
        frame.len() >= 34 && frame[12] == 0x08 && frame[13] == 0x00 ==> (summary matches Some(
            PacketSummary::Ipv4 { source, destination, protocol, total_length },
        ) && total_length as int == frame[16] as int * 256 + frame[17] as int && protocol
            == frame[23] && source@ == frame.subrange(26, 30) && destination@ == frame.subrange(
            30,
            34,
        )),
        14 <= frame.len() < 34 && frame[12] == 0x08 && frame[13] == 0x00 ==> summary.is_none(),
        frame.len() >= 14 && frame[12] == 0x08 && frame[13] == 0x06 ==> summary == Some(PacketSummary::Arp),
        frame.len() >= 14 && !(frame[12] == 0x08 && (frame[13] == 0x00 || frame[13] == 0x06))
            ==> summary.is_none(),
{
    if frame.len() >= 14 {
        let hi = frame[12];
        let lo = frame[13];
        assert(be16(hi, lo) == hi as int * 256 + lo as int);
        assert(be16(hi, lo) == ETHERTYPE_IPV4 <==> (hi == 0x08 && lo == 0x00));
        assert(be16(hi, lo) == ETHERTYPE_ARP <==> (hi == 0x08 && lo == 0x06));
        if frame.len() >= 34 {
            let ip = frame.subrange(14, frame.len() as int);
            assert(be16(ip[2], ip[3]) == ip[2] as int * 256 + ip[3] as int);
            assert(ip[2] == frame[16] && ip[3] == frame[17] && ip[9] == frame[23]);
            assert(ip.subrange(12, 16) =~= frame.subrange(26, 30));
            assert(ip.subrange(16, 20) =~= frame.subrange(30, 34));
        }
    }
}

/// The first position in `names` that holds `wanted`, if any.
pub fn find_interface(names: &Vec<String>, wanted: &str) -> (found: Option<usize>)
    ensures
        found matches Some(i) ==> i < names.len() && names@[i as int]@ == wanted@ && forall|j: int|
            0 <= j < i ==> #[trigger] names@[j]@ != wanted@,
        found.is_none() ==> forall|j: int| 0 <= j < names.len() ==> #[trigger] names@[j]@ != wanted@,
{
    let target = wanted.to_owned();
    let mut i: usize = 0;
    while i < names.len()
        invariant
            i <= names.len(),
            target@ == wanted@,
            forall|j: int| 0 <= j < i ==> #[trigger] names@[j]@ != wanted@,
        decreases names.len() - i,
    {
        if names[i] == target {
            return Some(i);
        }
        i = i + 1;
    }
    None
}

} // verus!
