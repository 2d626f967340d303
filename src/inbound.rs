use vstd::prelude::*;

use crate::connection::Segment;
use crate::wire::{is_ipv4_frame, FRAME_HEADER_LEN, PROTOCOL_TCP};

verus! {

/// The fields of an inbound IPv4 header that dispatch reads.
#[derive(Clone, Copy, Debug)]
pub struct Ipv4Fields {
    pub source: [u8; 4],
    pub destination: [u8; 4],
    pub protocol: u8,
    pub header_len: usize,
}

/// The fields of an inbound TCP header that the state machine reads.
#[derive(Clone, Copy, Debug)]
pub struct TcpFields {
    pub source_port: u16,
    pub destination_port: u16,
    pub sequence_number: u32,
    pub acknowledgment_number: u32,
    pub window_size: u16,
    pub syn: bool,
    pub ack: bool,
    pub fin: bool,
    pub rst: bool,
    pub header_len: usize,
}

/// A frame's segment, and where its payload begins in the frame.
#[derive(Clone, Copy, Debug)]
pub struct Inbound {
    pub segment: Segment,
    pub payload_start: usize,
}

/// The 16-bit value in network byte order at `i`.
pub open spec fn u16_at(b: Seq<u8>, i: int) -> u16 {
    (b[i] as int * 0x100 + b[i + 1] as int) as u16
}

/// The 32-bit value in network byte order at `i`.
pub open spec fn u32_at(b: Seq<u8>, i: int) -> u32 {
    (b[i] as int * 0x100_0000 + b[i + 1] as int * 0x1_0000 + b[i + 2] as int * 0x100
        + b[i + 3] as int) as u32
}

/// Bit `k` of `v`.
pub open spec fn bit(v: u8, k: nat) -> bool {
    (v as int / vstd::arithmetic::power2::pow2(k) as int) % 2 == 1
}

/// Length in bytes of the IPv4 header that `b` starts with.
pub open spec fn ipv4_header_len(b: Seq<u8>) -> int {
    (b[0] % 16) as int * 4
}

/// `b` starts with an IPv4 header: version 4, a header length of at least
/// 20 bytes that `b` holds whole, and a total length that covers it.
pub open spec fn ipv4_header_ok(b: Seq<u8>) -> bool {
    &&& b.len() >= 20
    &&& b[0] / 16 == 4
    &&& b[0] % 16 >= 5
    &&& b.len() >= ipv4_header_len(b)
    &&& u16_at(b, 2) >= ipv4_header_len(b)
}

/// Length in bytes of the TCP header that `b` starts with.
pub open spec fn tcp_header_len(b: Seq<u8>) -> int {
    (b[12] / 16) as int * 4
}

/// `b` starts with a TCP header: at least 20 bytes, held whole.
pub open spec fn tcp_header_ok(b: Seq<u8>) -> bool {
    &&& b.len() >= 20
    &&& b[12] / 16 >= 5
    &&& b.len() >= tcp_header_len(b)
}

/// Relies on etherparse's `Ipv4HeaderSlice::from_slice` and its field
/// accessors: the header is accepted exactly when its version, header length
/// and total length are sound, and each field is read at its offset.
#[verifier::external_body]
fn read_ipv4_header(b: &[u8]) -> (r: Option<Ipv4Fields>)
    ensures
        r is Some <==> ipv4_header_ok(b@),
        r is Some ==> {
            &&& r->0.source@ == b@.subrange(12, 16)
            &&& r->0.destination@ == b@.subrange(16, 20)
            &&& r->0.protocol == b@[9]
            &&& r->0.header_len == ipv4_header_len(b@)
        },
{
    match etherparse::Ipv4HeaderSlice::from_slice(b) {
        Ok(s) => Some(Ipv4Fields {
            source: [s.source()[0], s.source()[1], s.source()[2], s.source()[3]],
            destination: [s.destination()[0], s.destination()[1], s.destination()[2], s.destination()[3]],
            protocol: s.protocol(),
            header_len: s.slice().len(),
        }),
        Err(_) => None,
    }
}

/// Relies on etherparse's `TcpHeaderSlice::from_slice` and its field
/// accessors: the header is accepted exactly when its data offset is at
/// least 5 and the bytes hold it whole, and each field is read at its offset.
#[verifier::external_body]
fn read_tcp_header(b: &[u8]) -> (r: Option<TcpFields>)
    ensures
        r is Some <==> tcp_header_ok(b@),
        r is Some ==> {
            &&& r->0.source_port == u16_at(b@, 0)
            &&& r->0.destination_port == u16_at(b@, 2)
            &&& r->0.sequence_number == u32_at(b@, 4)
            &&& r->0.acknowledgment_number == u32_at(b@, 8)
            &&& r->0.fin == bit(b@[13], 0)
            &&& r->0.syn == bit(b@[13], 1)
            &&& r->0.rst == bit(b@[13], 2)
            &&& r->0.ack == bit(b@[13], 4)
            &&& r->0.window_size == u16_at(b@, 14)
            &&& r->0.header_len == tcp_header_len(b@)
        },
{
    match etherparse::TcpHeaderSlice::from_slice(b) {
        Ok(s) => Some(TcpFields {
            source_port: s.source_port(),
            destination_port: s.destination_port(),
            sequence_number: s.sequence_number(),
            acknowledgment_number: s.acknowledgment_number(),
            window_size: s.window_size(),
            syn: s.syn(),
            ack: s.ack(),
            fin: s.fin(),
            rst: s.rst(),
            header_len: s.slice().len(),
        }),
        Err(_) => None,
    }
}

/// The IPv4 header of a frame: what follows the frame header.
pub open spec fn ip_part(frame: Seq<u8>) -> Seq<u8> {
    frame.subrange(FRAME_HEADER_LEN as int, frame.len() as int)
}

/// The TCP header of a frame: what follows its IPv4 header.
pub open spec fn tcp_part(frame: Seq<u8>) -> Seq<u8> {
    frame.subrange(FRAME_HEADER_LEN + ipv4_header_len(ip_part(frame)), frame.len() as int)
}

/// A frame carries a TCP segment: an IPv4 frame whose IPv4 header is sound
/// and names TCP, followed by a sound TCP header.
pub open spec fn carries_tcp(frame: Seq<u8>) -> bool {
    &&& frame.len() >= FRAME_HEADER_LEN && frame[2] == 8u8 && frame[3] == 0u8
    &&& ipv4_header_ok(ip_part(frame))
    &&& ip_part(frame)[9] == PROTOCOL_TCP
    &&& tcp_header_ok(tcp_part(frame))
}

/// Reads the segment that a frame from the virtual interface carries.
/// Frames that are not IPv4, not TCP, or whose headers are malformed give
/// `None`; the payload runs from `payload_start` to the frame's end.
pub fn parse_frame(frame: &[u8]) -> (r: Option<Inbound>)
    ensures
        r is Some <==> carries_tcp(frame@),
        r is Some ==> {
            let ip = ip_part(frame@);
            let tcp = tcp_part(frame@);
            let s = r->0.segment;
            &&& s.source@ == ip.subrange(12, 16)
            &&& s.destination@ == ip.subrange(16, 20)
            &&& s.source_port == u16_at(tcp, 0)
            &&& s.destination_port == u16_at(tcp, 2)
            &&& s.sequence_number == u32_at(tcp, 4)
            &&& s.acknowledgment_number == u32_at(tcp, 8)
            &&& s.fin == bit(tcp[13], 0)
            &&& s.syn == bit(tcp[13], 1)
            &&& s.rst == bit(tcp[13], 2)
            &&& s.ack == bit(tcp[13], 4)
            &&& s.window_size == u16_at(tcp, 14)
            &&& r->0.payload_start == FRAME_HEADER_LEN + ipv4_header_len(ip) + tcp_header_len(tcp)
            &&& r->0.payload_start <= frame@.len()
        },
{
    if !is_ipv4_frame(frame) {
        return None;
    }
    let ip_bytes = vstd::slice::slice_subrange(frame, FRAME_HEADER_LEN, frame.len());
    let ip = match read_ipv4_header(ip_bytes) {
        Some(h) => h,
        None => return None,
    };
    if ip.protocol != PROTOCOL_TCP {
        return None;
    }
    let tcp_start = FRAME_HEADER_LEN + ip.header_len;
    let tcp_bytes = vstd::slice::slice_subrange(frame, tcp_start, frame.len());
    let tcp = match read_tcp_header(tcp_bytes) {
        Some(h) => h,
        None => return None,
    };
    let segment = Segment {
        source: ip.source,
        destination: ip.destination,
        source_port: tcp.source_port,
        destination_port: tcp.destination_port,
        sequence_number: tcp.sequence_number,
        acknowledgment_number: tcp.acknowledgment_number,
        window_size: tcp.window_size,
        syn: tcp.syn,
        ack: tcp.ack,
        fin: tcp.fin,
        rst: tcp.rst,
    };
    Some(Inbound { segment, payload_start: tcp_start + tcp.header_len })
}

} // verus!
