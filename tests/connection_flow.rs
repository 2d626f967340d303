use usertcp::connection::{is_segment_acceptable, ConnError, Connection, RecvTcb, Segment, LOCAL_WINDOW};
use usertcp::state::State;
use usertcp::wire::{encode_frame, is_ipv4_frame, Emitted, TcpHeaderFields};

fn segment(seq: u32, ackn: u32, syn: bool, ack: bool, fin: bool) -> Segment {
    Segment {
        source: [10, 0, 0, 2],
        destination: [10, 0, 0, 1],
        source_port: 40000,
        destination_port: 80,
        sequence_number: seq,
        acknowledgment_number: ackn,
        window_size: 1024,
        syn,
        ack,
        fin,
        rst: false,
    }
}

fn opened(iss: u32) -> (Connection, Vec<Emitted>) {
    let mut out = Vec::new();
    let conn = Connection::accept(iss, &segment(100, 0, true, false, false), &mut out).unwrap();
    (conn, out)
}

#[test]
fn accept_ignores_non_syn() {
    let mut out = Vec::new();
    assert!(Connection::accept(0, &segment(100, 0, false, true, false), &mut out).is_none());
    assert!(out.is_empty());
}

#[test]
fn accept_answers_syn_with_syn_ack() {
    let (conn, out) = opened(0);
    assert_eq!(conn.state, State::SynRcvd);
    assert_eq!(out.len(), 1);
    let h = out[0].header;
    assert!(h.syn && h.ack && !h.fin && !h.rst);
    assert_eq!(h.sequence_number, 0);
    assert_eq!(h.acknowledgment_number, 101);
    assert_eq!(h.source_port, 80);
    assert_eq!(h.destination_port, 40000);
    assert_eq!(h.window_size, LOCAL_WINDOW);
    assert_eq!(conn.send.nxt, 1);
    assert_eq!(conn.send.una, 0);
    assert_eq!(conn.send.wnd, 1024);
    assert_eq!(conn.recv.irs, 100);
    assert_eq!(conn.recv.nxt, 101);
    assert_eq!(conn.recv.wnd, LOCAL_WINDOW);
    assert!(!conn.template.syn);
}

#[test]
fn accept_frame_parses_back() {
    let (_, out) = opened(7);
    let frame = &out[0].frame;
    assert_eq!(frame.len(), 44);
    assert_eq!(&frame[..4], &[0, 0, 8, 0]);
    assert!(is_ipv4_frame(frame));
    let ip = etherparse::Ipv4HeaderSlice::from_slice(&frame[4..]).unwrap();
    assert_eq!(ip.source(), &[10, 0, 0, 1]);
    assert_eq!(ip.destination(), &[10, 0, 0, 2]);
    assert_eq!(ip.protocol(), 6);
    assert_eq!(ip.payload_len(), 20);
    assert_eq!(ip.ttl(), 64);
    let tcp = etherparse::TcpHeaderSlice::from_slice(&frame[24..]).unwrap();
    assert!(tcp.syn() && tcp.ack());
    assert_eq!(tcp.sequence_number(), 7);
    assert_eq!(tcp.acknowledgment_number(), 101);
    assert_eq!(tcp.checksum(), out[0].header.checksum);
    assert_eq!(tcp.calc_checksum_ipv4(&ip, &[]).unwrap(), tcp.checksum());
    assert_ne!(tcp.checksum(), 0);
}

#[test]
fn ack_of_syn_starts_close() {
    let (mut conn, mut out) = opened(0);
    let r = conn.on_packet(&segment(101, 1, false, true, false), &[], &mut out);
    assert_eq!(r, Ok(()));
    assert_eq!(conn.state, State::FinWait1);
    assert_eq!(out.len(), 2);
    let h = out[1].header;
    assert!(h.fin && h.ack && !h.syn);
    assert_eq!(h.sequence_number, 1);
    assert_eq!(h.acknowledgment_number, 101);
    assert_eq!(conn.send.una, 1);
    assert_eq!(conn.send.nxt, 2);
    assert!(!conn.template.fin);
}

#[test]
fn fin_in_fin_wait1_closes() {
    let (mut conn, mut out) = opened(0);
    conn.on_packet(&segment(101, 1, false, true, false), &[], &mut out).unwrap();
    let r = conn.on_packet(&segment(101, 2, false, true, true), &[], &mut out);
    assert_eq!(r, Ok(()));
    assert_eq!(conn.state, State::Closing);
    assert_eq!(out.len(), 3);
    let h = out[2].header;
    assert!(!h.fin && h.ack && !h.syn && !h.rst);
    assert_eq!(h.acknowledgment_number, 102);
    assert_eq!(h.sequence_number, 2);
    assert_eq!(conn.recv.nxt, 102);
    assert_eq!(conn.send.nxt, 2);
    assert_eq!(conn.send.una, 2);
}

#[test]
fn ack_without_fin_in_fin_wait1_stays() {
    let (mut conn, mut out) = opened(0);
    conn.on_packet(&segment(101, 1, false, true, false), &[], &mut out).unwrap();
    conn.on_packet(&segment(101, 2, false, true, false), &[], &mut out).unwrap();
    assert_eq!(conn.state, State::FinWait1);
    assert_eq!(out.len(), 2);
    assert_eq!(conn.send.una, 2);
}

#[test]
fn duplicate_segment_changes_nothing() {
    let (mut conn, mut out) = opened(0);
    conn.on_packet(&segment(101, 1, false, true, false), &[], &mut out).unwrap();
    let send = conn.send;
    let recv = conn.recv;
    let r = conn.on_packet(&segment(100, 1, false, true, false), &[], &mut out);
    assert_eq!(r, Ok(()));
    assert_eq!(conn.send, send);
    assert_eq!(conn.recv, recv);
    assert_eq!(conn.state, State::FinWait1);
    let r = conn.on_packet(&segment(101, 1, false, true, false), &[], &mut out);
    assert_eq!(r, Ok(()));
    assert_eq!(conn.send, send);
    assert_eq!(conn.recv, recv);
}

#[test]
fn unacceptable_segment_is_acknowledged() {
    let (mut conn, mut out) = opened(0);
    let r = conn.on_packet(&segment(5000, 1, false, true, false), &[], &mut out);
    assert_eq!(r, Ok(()));
    assert_eq!(conn.state, State::SynRcvd);
    assert_eq!(out.len(), 2);
    let h = out[1].header;
    assert!(h.ack && !h.syn && !h.fin && !h.rst);
    assert_eq!(h.acknowledgment_number, 101);
    assert_eq!(conn.recv.nxt, 101);
    assert_eq!(conn.send.nxt, 1);
}

#[test]
fn bad_ack_before_synchronized_resets() {
    let (mut conn, mut out) = opened(0);
    let r = conn.on_packet(&segment(101, 9, false, true, false), &[], &mut out);
    assert_eq!(r, Ok(()));
    assert_eq!(conn.state, State::SynRcvd);
    assert_eq!(out.len(), 2);
    assert!(out[1].header.rst);
    assert!(!conn.template.rst);
    assert_eq!(conn.send.una, 0);
    assert_eq!(conn.send.nxt, 1);
}

#[test]
fn bad_ack_when_synchronized_is_ignored() {
    let (mut conn, mut out) = opened(0);
    conn.on_packet(&segment(101, 1, false, true, false), &[], &mut out).unwrap();
    let r = conn.on_packet(&segment(101, 50, false, true, false), &[], &mut out);
    assert_eq!(r, Ok(()));
    assert_eq!(conn.state, State::FinWait1);
    assert_eq!(out.len(), 2);
    assert_eq!(conn.send.una, 1);
}

#[test]
fn segment_without_ack_only_moves_recv() {
    let (mut conn, mut out) = opened(0);
    let r = conn.on_packet(&segment(101, 0, false, false, false), &[1, 2, 3], &mut out);
    assert_eq!(r, Ok(()));
    assert_eq!(conn.recv.nxt, 104);
    assert_eq!(conn.state, State::SynRcvd);
    assert_eq!(out.len(), 1);
}

#[test]
fn data_is_unhandled() {
    let (mut conn, mut out) = opened(0);
    let r = conn.on_packet(&segment(101, 1, false, true, false), &[1, 2], &mut out);
    assert_eq!(r, Err(ConnError::UnhandledState));
    assert_eq!(conn.recv.nxt, 103);
    assert_eq!(conn.send.una, 1);
    assert_eq!(conn.state, State::SynRcvd);
}

#[test]
fn fin_while_syn_received_is_unhandled() {
    let (mut conn, mut out) = opened(0);
    let r = conn.on_packet(&segment(101, 1, false, true, true), &[], &mut out);
    assert_eq!(r, Err(ConnError::UnhandledState));
    assert_eq!(conn.recv.nxt, 102);
    assert_eq!(conn.state, State::SynRcvd);
    assert_eq!(out.len(), 1);
}

#[test]
fn acceptance_table() {
    let open = RecvTcb { nxt: 1000, wnd: 10, up: false, irs: 999 };
    let shut = RecvTcb { nxt: 1000, wnd: 0, up: false, irs: 999 };
    assert!(is_segment_acceptable(&shut, 1000, 0));
    assert!(!is_segment_acceptable(&shut, 1001, 0));
    assert!(!is_segment_acceptable(&shut, 1000, 1));
    assert!(is_segment_acceptable(&open, 1000, 0));
    assert!(is_segment_acceptable(&open, 1009, 0));
    assert!(!is_segment_acceptable(&open, 1010, 0));
    assert!(!is_segment_acceptable(&open, 999, 0));
    assert!(is_segment_acceptable(&open, 995, 6));
    assert!(!is_segment_acceptable(&open, 995, 5));
    assert!(is_segment_acceptable(&open, 1009, 5));
}

#[test]
fn acceptance_wraps() {
    let recv = RecvTcb { nxt: 0xFFFF_FFFE, wnd: 10, up: false, irs: 0 };
    assert!(is_segment_acceptable(&recv, 0xFFFF_FFFF, 0));
    assert!(is_segment_acceptable(&recv, 3, 1));
    assert!(!is_segment_acceptable(&recv, 8, 1));
}

#[test]
fn write_truncates_to_frame() {
    let (mut conn, mut out) = opened(0);
    let payload = vec![7u8; 2000];
    let n = conn.write(&payload, &mut out);
    assert_eq!(n, 1504);
    assert_eq!(out[1].frame.len(), 1504);
    assert_eq!(conn.send.nxt, 1 + 1460);
    let ip = etherparse::Ipv4HeaderSlice::from_slice(&out[1].frame[4..]).unwrap();
    assert_eq!(ip.payload_len(), 1480);
}

#[test]
fn write_counts_payload_and_fin() {
    let (mut conn, mut out) = opened(0xFFFF_FFFF);
    assert_eq!(conn.send.nxt, 0);
    conn.template.fin = true;
    let n = conn.write(&[1, 2, 3], &mut out);
    assert_eq!(n, 47);
    assert_eq!(conn.send.nxt, 4);
    assert!(!conn.template.fin);
    assert_eq!(&out[1].frame[44..], &[1, 2, 3]);
}

#[test]
fn encode_frame_layout() {
    let h = TcpHeaderFields {
        source_port: 0x1234,
        destination_port: 0x5678,
        sequence_number: 0x0102_0304,
        acknowledgment_number: 0x0506_0708,
        window_size: 0x0900,
        syn: true,
        ack: true,
        fin: false,
        rst: false,
        checksum: 0,
    };
    let e = encode_frame([1, 2, 3, 4], [5, 6, 7, 8], &h, &[9, 9]);
    let f = &e.frame;
    assert_eq!(f.len(), 46);
    assert_eq!(f[4], 0x45);
    assert_eq!(&f[16..24], &[1, 2, 3, 4, 5, 6, 7, 8]);
    assert_eq!(&f[24..36], &[0x12, 0x34, 0x56, 0x78, 1, 2, 3, 4, 5, 6, 7, 8]);
    assert_eq!(f[36], 0x50);
    assert_eq!(f[37], 0x12);
    assert_eq!(&f[38..40], &[0x09, 0x00]);
    assert_eq!(u16::from_be_bytes([f[40], f[41]]), e.header.checksum);
    assert_eq!(&f[44..], &[9, 9]);
    let ip = etherparse::Ipv4HeaderSlice::from_slice(&f[4..]).unwrap();
    let tcp = etherparse::TcpHeaderSlice::from_slice(&f[24..]).unwrap();
    assert_eq!(tcp.calc_checksum_ipv4(&ip, &[9, 9]).unwrap(), e.header.checksum);
    assert_eq!(ip.header_checksum(), ip.to_header().calc_header_checksum().unwrap());
}

#[test]
fn frame_kind() {
    assert!(is_ipv4_frame(&[0, 0, 8, 0, 0x45]));
    assert!(!is_ipv4_frame(&[0, 0, 0x86, 0xdd]));
    assert!(!is_ipv4_frame(&[0, 0, 8]));
}
