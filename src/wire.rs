use vstd::prelude::*;

verus! {

/// Every field of an outbound TCP header that this endpoint sets; the rest
/// (options, urgent pointer, ECN bits) stay zero.
#[derive(PartialEq, Eq, Structural, Clone, Copy, Debug)]
pub struct TcpHeaderFields {
    pub source_port: u16,
    pub destination_port: u16,
    pub sequence_number: u32,
    pub acknowledgment_number: u32,
    pub window_size: u16,
    pub syn: bool,
    pub ack: bool,
    pub fin: bool,
    pub rst: bool,
    pub checksum: u16,
}

/// A segment handed to the virtual interface: its TCP header as sent and
/// the whole frame.
#[derive(Debug)]
pub struct Emitted {
    pub header: TcpHeaderFields,
    pub frame: Vec<u8>,
}

/// Bytes of the 4-byte frame header of the virtual interface: no flags,
/// protocol type 0x0800 (IPv4).
pub const FRAME_HEADER_LEN: usize = 4;

/// Room for one frame on the virtual interface, its header included.
pub const FRAME_CAPACITY: usize = 1504;

/// Length of an IPv4 header without options.
pub const IPV4_HEADER_LEN: usize = 20;

/// Length of a TCP header without options.
pub const TCP_HEADER_LEN: usize = 20;

/// Payload bytes that fit in one frame beside the three headers.
pub const MAX_SEGMENT_PAYLOAD: usize = 1460;

/// Time to live of every datagram sent.
pub const TIME_TO_LIVE: u8 = 64;

/// IP protocol number of TCP.
pub const PROTOCOL_TCP: u8 = 6;

/// A 16-bit value in network byte order.
pub open spec fn be16(v: u16) -> Seq<u8> {
    seq![(v / 256) as u8, (v % 256) as u8]
}

/// A 32-bit value in network byte order.
pub open spec fn be32(v: u32) -> Seq<u8> {
    seq![
        (v / 0x100_0000) as u8,
        ((v / 0x1_0000) % 256) as u8,
        ((v / 256) % 256) as u8,
        (v % 256) as u8,
    ]
}

/// The control-bits byte: FIN 1, SYN 2, RST 4, ACK 16.
pub open spec fn flag_byte(h: TcpHeaderFields) -> u8 {
    ((if h.fin { 1int } else { 0 }) + (if h.syn { 2int } else { 0 }) + (if h.rst { 4int } else { 0 })
        + (if h.ack { 16int } else { 0 })) as u8
}

/// The 20 bytes of a TCP header without options: data offset 5, urgent
/// pointer zero.
pub open spec fn tcp_header_bytes(h: TcpHeaderFields) -> Seq<u8> {
    be16(h.source_port) + be16(h.destination_port) + be32(h.sequence_number) + be32(
        h.acknowledgment_number,
    ) + seq![0x50u8, flag_byte(h)] + be16(h.window_size) + be16(h.checksum) + be16(0)
}

/// The TCP checksum over the IPv4 pseudo-header, the header `header` and
/// `payload`, as etherparse computes it.
pub uninterp spec fn tcp_checksum_ipv4(
    header: TcpHeaderFields,
    source: Seq<u8>,
    destination: Seq<u8>,
    payload: Seq<u8>,
) -> u16;

/// The 20 bytes of an option-less IPv4 header carrying TCP, with its header
/// checksum, as etherparse writes them.
pub uninterp spec fn ipv4_tcp_header_bytes(
    source: Seq<u8>,
    destination: Seq<u8>,
    time_to_live: u8,
    payload_len: u16,
) -> Seq<u8>;

/// Relies on etherparse's `TcpHeader::new` and `TcpHeader::write`: a header
/// without options is written as its fields in network byte order.
#[verifier::external_body]
fn write_tcp_header(h: &TcpHeaderFields) -> (r: Vec<u8>)
    ensures
        r@ == tcp_header_bytes(*h),
{
    let mut t = etherparse::TcpHeader::new(h.source_port, h.destination_port, h.sequence_number, h.window_size);
    t.acknowledgment_number = h.acknowledgment_number;
    t.syn = h.syn;
    t.ack = h.ack;
    t.fin = h.fin;
    t.rst = h.rst;
    t.checksum = h.checksum;
    let mut out: Vec<u8> = Vec::new();
    let _ = t.write(&mut out);
    out
}

/// Relies on etherparse's `TcpHeader::calc_checksum_ipv4_raw`: it refuses a
/// segment whose header and payload together exceed 65535 bytes, and
/// otherwise returns the checksum.
#[verifier::external_body]
fn checksum_ipv4(h: &TcpHeaderFields, source: [u8; 4], destination: [u8; 4], payload: &[u8]) -> (r:
    Option<u16>)
    ensures
        r is Some <==> 20 + payload@.len() <= 65535,
        r is Some ==> r->0 == tcp_checksum_ipv4(*h, source@, destination@, payload@),
{
    let mut t = etherparse::TcpHeader::new(h.source_port, h.destination_port, h.sequence_number, h.window_size);
    t.acknowledgment_number = h.acknowledgment_number;
    t.syn = h.syn;
    t.ack = h.ack;
    t.fin = h.fin;
    t.rst = h.rst;
    t.checksum = h.checksum;
    t.calc_checksum_ipv4_raw(source, destination, payload).ok()
}

/// Relies on etherparse's `Ipv4Header::new` and `Ipv4Header::write`: an
/// option-less TCP header is written as 20 bytes, and refused when the
/// payload length exceeds 65515.
#[verifier::external_body]
fn write_ipv4_header(source: [u8; 4], destination: [u8; 4], time_to_live: u8, payload_len: u16) -> (r:
    Option<Vec<u8>>)
    ensures
        r is Some <==> payload_len <= 65515,
        r is Some ==> r->0@ == ipv4_tcp_header_bytes(source@, destination@, time_to_live, payload_len),
        r is Some ==> r->0@.len() == 20,
{
    let h = etherparse::Ipv4Header::new(payload_len, time_to_live, etherparse::IpTrafficClass::Tcp, source, destination);
    let mut out: Vec<u8> = Vec::new();
    match h.write(&mut out) {
        Ok(()) => Some(out),
        Err(_) => None,
    }
}

/// The header fields with the checksum field replaced.
pub open spec fn with_checksum(h: TcpHeaderFields, checksum: u16) -> TcpHeaderFields {
    TcpHeaderFields { checksum, ..h }
}

/// The header as sent: its checksum computed over the pseudo-header, the
/// header with a zero checksum field, and the payload.
pub open spec fn checksummed(
    h: TcpHeaderFields,
    source: Seq<u8>,
    destination: Seq<u8>,
    payload: Seq<u8>,
) -> TcpHeaderFields {
    with_checksum(h, tcp_checksum_ipv4(with_checksum(h, 0), source, destination, payload))
}

/// A whole frame for the virtual interface: frame header, IPv4 header, TCP
/// header and payload.
pub open spec fn frame_bytes(
    source: Seq<u8>,
    destination: Seq<u8>,
    h: TcpHeaderFields,
    payload: Seq<u8>,
) -> Seq<u8> {
    seq![0u8, 0u8, 8u8, 0u8] + ipv4_tcp_header_bytes(
        source,
        destination,
        TIME_TO_LIVE,
        (TCP_HEADER_LEN + payload.len()) as u16,
    ) + tcp_header_bytes(checksummed(h, source, destination, payload)) + payload
}

/// Serialises one segment from `source` to `destination` into a frame for
/// the virtual interface, computing the TCP checksum.
pub fn encode_frame(source: [u8; 4], destination: [u8; 4], h: &TcpHeaderFields, payload: &[u8]) -> (r:
    Emitted)
    requires
        payload@.len() <= MAX_SEGMENT_PAYLOAD,
    ensures
        r.header == checksummed(*h, source@, destination@, payload@),
        r.frame@ == frame_bytes(source@, destination@, *h, payload@),
        r.frame@.len() == FRAME_HEADER_LEN + IPV4_HEADER_LEN + TCP_HEADER_LEN + payload@.len(),
{
    let zeroed = TcpHeaderFields { checksum: 0, ..*h };
    let checksum = match checksum_ipv4(&zeroed, source, destination, payload) {
        Some(c) => c,
        None => 0,
    };
    let stamped = TcpHeaderFields { checksum, ..*h };
    let tcp_len = (TCP_HEADER_LEN + payload.len()) as u16;
    let ip = match write_ipv4_header(source, destination, TIME_TO_LIVE, tcp_len) {
        Some(b) => b,
        None => Vec::new(),
    };
    let tcp = write_tcp_header(&stamped);
    let mut out: Vec<u8> = vec![0u8, 0u8, 8u8, 0u8];
    append_bytes(&mut out, &ip);
    append_bytes(&mut out, &tcp);
    append_bytes(&mut out, payload);
    assert(tcp@.len() == 20);
    proof {
        assert(stamped == checksummed(*h, source@, destination@, payload@));
    }
    Emitted { header: stamped, frame: out }
}

/// Appends every byte of `src` to `dst`.
fn append_bytes(dst: &mut Vec<u8>, src: &[u8])
    ensures
        final(dst)@ == old(dst)@ + src@,
{
    let mut i: usize = 0;
    while i < src.len()
        invariant
            i <= src@.len(),
            dst@ == old(dst)@ + src@.subrange(0, i as int),
        decreases src@.len() - i,
    {
        dst.push(src[i]);
        i = i + 1;
        assert(src@.subrange(0, i as int) == src@.subrange(0, i - 1) + seq![src@[i - 1]]);
    }
    assert(src@.subrange(0, src@.len() as int) == src@);
}

/// Whether a frame read from the virtual interface carries an IPv4 datagram:
/// its protocol type, bytes 2 and 3, is 0x0800.
pub fn is_ipv4_frame(frame: &[u8]) -> (r: bool)
    ensures
        r == (frame@.len() >= FRAME_HEADER_LEN && frame@[2] == 8u8 && frame@[3] == 0u8),
{
    frame.len() >= FRAME_HEADER_LEN && frame[2] == 8u8 && frame[3] == 0u8
}

} // verus!
