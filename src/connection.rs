use vstd::prelude::*;

use crate::seqnum::{is_x_between, strictly_between};
use crate::state::State;
use crate::wire::{
    checksummed, encode_frame, frame_bytes, Emitted, TcpHeaderFields, FRAME_HEADER_LEN,
    IPV4_HEADER_LEN, MAX_SEGMENT_PAYLOAD, TCP_HEADER_LEN,
};

verus! {

/// Window that this endpoint advertises to its peer.
pub const LOCAL_WINDOW: u16 = 500;

/// Largest payload of one inbound segment: an IPv4 datagram holds at most
/// 65535 bytes.
pub const MAX_INBOUND_PAYLOAD: usize = 65535;

/// Send-side control block.
#[derive(PartialEq, Eq, Structural, Clone, Copy, Debug)]
pub struct SendTcb {
    /// Oldest sequence number not yet acknowledged by the peer.
    pub una: u32,
    /// Next sequence number to send.
    pub nxt: u32,
    /// Receive window advertised by the peer.
    pub wnd: u16,
    /// Urgent flag, kept but not acted on.
    pub up: bool,
    /// Initial send sequence number.
    pub iss: u32,
}

/// Receive-side control block.
#[derive(PartialEq, Eq, Structural, Clone, Copy, Debug)]
pub struct RecvTcb {
    /// Next sequence number expected from the peer.
    pub nxt: u32,
    /// Receive window advertised by this endpoint.
    pub wnd: u16,
    /// Urgent flag, kept but not acted on.
    pub up: bool,
    /// Initial receive sequence number, from the peer's SYN.
    pub irs: u32,
}

/// The header fields of an inbound segment that the state machine reads.
#[derive(Clone, Copy, Debug)]
pub struct Segment {
    pub source: [u8; 4],
    pub destination: [u8; 4],
    pub source_port: u16,
    pub destination_port: u16,
    pub sequence_number: u32,
    pub acknowledgment_number: u32,
    pub window_size: u16,
    pub syn: bool,
    pub ack: bool,
    pub fin: bool,
    pub rst: bool,
}

/// Identity of a connection: the peer's address and port, then this
/// endpoint's, compared and hashed as plain bytes and numbers.
#[derive(Clone, Copy, Debug, Hash, PartialEq, Eq)]
pub struct Quad {
    pub src: ([u8; 4], u16),
    pub dst: ([u8; 4], u16),
}

impl Segment {
    /// The connection that this segment belongs to.
    pub fn quad(&self) -> (r: Quad)
        ensures
            r.src == (self.source, self.source_port),
            r.dst == (self.destination, self.destination_port),
    {
        Quad { src: (self.source, self.source_port), dst: (self.destination, self.destination_port) }
    }
}

/// What every outbound segment of a connection shares: addresses, ports
/// and window, and the control bits to set on the next segment sent.
#[derive(Clone, Copy, Debug)]
pub struct Template {
    pub source: [u8; 4],
    pub destination: [u8; 4],
    pub source_port: u16,
    pub destination_port: u16,
    pub window_size: u16,
    pub syn: bool,
    pub ack: bool,
    pub fin: bool,
    pub rst: bool,
}

/// One connection, identified by its address and port pair.
#[derive(Clone, Copy, Debug)]
pub struct Connection {
    pub state: State,
    pub send: SendTcb,
    pub recv: RecvTcb,
    pub template: Template,
}

/// A segment that the state machine has no rule for: data, or a FIN outside
/// FinWait1.
#[derive(PartialEq, Eq, Structural, Clone, Copy, Debug)]
pub enum ConnError {
    UnhandledState,
}

impl Connection {
    /// Between segments no SYN, FIN or RST waits on the template: each is
    /// set only for the one segment that carries it.
    pub open spec fn wf(self) -> bool {
        !self.template.syn && !self.template.fin && !self.template.rst
    }
}

/// The TCP header of the next segment that `c` sends, before its checksum.
pub open spec fn next_header(c: Connection) -> TcpHeaderFields {
    TcpHeaderFields {
        source_port: c.template.source_port,
        destination_port: c.template.destination_port,
        sequence_number: c.send.nxt,
        acknowledgment_number: c.recv.nxt,
        window_size: c.template.window_size,
        syn: c.template.syn,
        ack: c.template.ack,
        fin: c.template.fin,
        rst: c.template.rst,
        checksum: 0,
    }
}

/// `e` is the segment that `c` sends with `payload`.
pub open spec fn emitted_from(c: Connection, e: Emitted, payload: Seq<u8>) -> bool {
    &&& e.header == checksummed(
        next_header(c),
        c.template.source@,
        c.template.destination@,
        payload,
    )
    &&& e.frame@ == frame_bytes(c.template.source@, c.template.destination@, next_header(c), payload)
}

/// `c` after sending `n` payload bytes: SYN and FIN each take one sequence
/// number and are cleared once sent.
pub open spec fn after_write(c: Connection, n: nat) -> Connection {
    let n1 = c.send.nxt.wrapping_add(n as u32);
    let n2 = if c.template.syn { n1.wrapping_add(1) } else { n1 };
    let n3 = if c.template.fin { n2.wrapping_add(1) } else { n2 };
    Connection {
        send: SendTcb { nxt: n3, ..c.send },
        template: Template { syn: false, fin: false, ..c.template },
        ..c
    }
}

/// Sequence numbers that a segment occupies: its payload, and one each for
/// SYN and FIN.
pub open spec fn seg_len(seg: Segment, payload_len: nat) -> int {
    payload_len + (if seg.syn { 1int } else { 0 }) + (if seg.fin { 1int } else { 0 })
}

/// RFC 793's acceptance test of a segment of `len` sequence numbers that
/// starts at `seqn`, against the receive window `[recv.nxt, recv.nxt +
/// recv.wnd)`.
pub open spec fn segment_acceptable(recv: RecvTcb, seqn: u32, len: int) -> bool {
    let before = recv.nxt.wrapping_sub(1);
    let wnd_end = recv.nxt.wrapping_add(recv.wnd as u32);
    if len == 0 {
        if recv.wnd == 0 {
            seqn == recv.nxt
        } else {
            strictly_between(before, seqn, wnd_end)
        }
    } else {
        if recv.wnd == 0 {
            false
        } else {
            strictly_between(before, seqn, wnd_end) || strictly_between(
                before,
                seqn.wrapping_add((len - 1) as u32),
                wnd_end,
            )
        }
    }
}

/// An acknowledgment number is acceptable when it lies in `(una, nxt]`.
pub open spec fn ack_acceptable(send: SendTcb, ackn: u32) -> bool {
    strictly_between(send.una, ackn, send.nxt.wrapping_add(1))
}

/// What `on_packet` does with `seg` carrying `payload_len` bytes: the
/// connection afterwards, the connection as it stood at each segment sent
/// (each with no payload), and the outcome.
pub open spec fn transition(c: Connection, seg: Segment, payload_len: nat) -> (
    Connection,
    Seq<Connection>,
    Result<(), ConnError>,
) {
    let len = seg_len(seg, payload_len);
    if !segment_acceptable(c.recv, seg.sequence_number, len) {
        (after_write(c, 0), seq![c], Ok(()))
    } else {
        let c1 = Connection {
            recv: RecvTcb { nxt: c.recv.nxt.wrapping_add(len as u32), ..c.recv },
            ..c
        };
        if !seg.ack {
            (c1, seq![], Ok(()))
        } else if !ack_acceptable(c1.send, seg.acknowledgment_number) {
            if !c1.state.synchronized() {
                let r = Connection { template: Template { rst: true, ..c1.template }, ..c1 };
                let w = after_write(r, 0);
                (Connection { template: Template { rst: false, ..w.template }, ..w }, seq![r], Ok(()))
            } else {
                (c1, seq![], Ok(()))
            }
        } else {
            let c2 = Connection { send: SendTcb { una: seg.acknowledgment_number, ..c1.send }, ..c1 };
            match c2.state {
                State::SynRcvd => {
                    if payload_len > 0 || seg.fin {
                        (c2, seq![], Err(ConnError::UnhandledState))
                    } else {
                        let c3 = Connection {
                            state: State::Estab,
                            template: Template { fin: true, ..c2.template },
                            ..c2
                        };
                        (Connection { state: State::FinWait1, ..after_write(c3, 0) }, seq![c3], Ok(()))
                    }
                },
                State::FinWait1 => {
                    if payload_len > 0 {
                        (c2, seq![], Err(ConnError::UnhandledState))
                    } else if seg.fin {
                        let c3 = Connection { template: Template { fin: false, ..c2.template }, ..c2 };
                        (Connection { state: State::Closing, ..after_write(c3, 0) }, seq![c3], Ok(()))
                    } else {
                        (c2, seq![], Ok(()))
                    }
                },
                _ => {
                    if payload_len > 0 || seg.fin {
                        (c2, seq![], Err(ConnError::UnhandledState))
                    } else {
                        (c2, seq![], Ok(()))
                    }
                },
            }
        }
    }
}

/// The connection that a SYN creates, before its SYN+ACK is sent.
pub open spec fn opened(iss: u32, seg: Segment) -> Connection {
    Connection {
        state: State::SynRcvd,
        send: SendTcb { una: iss, nxt: iss, wnd: seg.window_size, up: false, iss },
        recv: RecvTcb {
            nxt: seg.sequence_number.wrapping_add(1),
            wnd: LOCAL_WINDOW,
            up: false,
            irs: seg.sequence_number,
        },
        template: Template {
            source: seg.destination,
            destination: seg.source,
            source_port: seg.destination_port,
            destination_port: seg.source_port,
            window_size: LOCAL_WINDOW,
            syn: true,
            ack: true,
            fin: false,
            rst: false,
        },
    }
}

/// Applies RFC 793's acceptance test to a segment of `len` sequence numbers.
pub fn is_segment_acceptable(recv: &RecvTcb, seqn: u32, len: u32) -> (r: bool)
    ensures
        r == segment_acceptable(*recv, seqn, len as int),
{
    let before = recv.nxt.wrapping_sub(1);
    let wnd_end = recv.nxt.wrapping_add(recv.wnd as u32);
    if len == 0 {
        if recv.wnd == 0 {
            seqn == recv.nxt
        } else {
            is_x_between(before, seqn, wnd_end)
        }
    } else if recv.wnd == 0 {
        false
    } else {
        is_x_between(before, seqn, wnd_end) || is_x_between(
            before,
            seqn.wrapping_add(len - 1),
            wnd_end,
        )
    }
}

impl Connection {
    /// Sends one segment carrying as much of `payload` as fits in a frame,
    /// stamped with the current sequence and acknowledgment numbers, and
    /// advances `send.nxt` past it. Returns the length of the frame.
    pub fn write(&mut self, payload: &[u8], out: &mut Vec<Emitted>) -> (r: usize)
        ensures
            ({
                let n = if payload@.len() <= MAX_SEGMENT_PAYLOAD {
                    payload@.len()
                } else {
                    MAX_SEGMENT_PAYLOAD as nat
                };
                &&& *final(self) == after_write(*old(self), n)
                &&& final(out)@.len() == old(out)@.len() + 1
                &&& final(out)@.drop_last() == old(out)@
                &&& emitted_from(*old(self), final(out)@.last(), payload@.subrange(0, n as int))
                &&& r == final(out)@.last().frame@.len()
                &&& r == FRAME_HEADER_LEN + IPV4_HEADER_LEN + TCP_HEADER_LEN + n
            }),
    {
        let n: usize = if payload.len() <= MAX_SEGMENT_PAYLOAD {
            payload.len()
        } else {
            MAX_SEGMENT_PAYLOAD
        };
        let body = vstd::slice::slice_subrange(payload, 0, n);
        let header = TcpHeaderFields {
            source_port: self.template.source_port,
            destination_port: self.template.destination_port,
            sequence_number: self.send.nxt,
            acknowledgment_number: self.recv.nxt,
            window_size: self.template.window_size,
            syn: self.template.syn,
            ack: self.template.ack,
            fin: self.template.fin,
            rst: self.template.rst,
            checksum: 0,
        };
        let sent = encode_frame(self.template.source, self.template.destination, &header, body);
        let len = sent.frame.len();
        out.push(sent);
        self.send.nxt = self.send.nxt.wrapping_add(n as u32);
        if self.template.syn {
            self.send.nxt = self.send.nxt.wrapping_add(1);
            self.template.syn = false;
        }
        if self.template.fin {
            self.send.nxt = self.send.nxt.wrapping_add(1);
            self.template.fin = false;
        }
        len
    }
}

impl Connection {
    /// Opens a connection for a segment from an unknown peer. Only a SYN
    /// opens one: it is answered with a SYN+ACK from `iss` and the
    /// connection enters SynRcvd. Any other segment gets `None` and no reply.
    pub fn accept(iss: u32, seg: &Segment, out: &mut Vec<Emitted>) -> (r: Option<Connection>)
        ensures
            seg.syn <==> r is Some,
            !seg.syn ==> final(out)@ == old(out)@,
            seg.syn ==> {
                &&& r->0 == after_write(opened(iss, *seg), 0)
                &&& r->0.wf()
                &&& final(out)@.len() == old(out)@.len() + 1
                &&& final(out)@.drop_last() == old(out)@
                &&& emitted_from(opened(iss, *seg), final(out)@.last(), seq![])
            },
    {
        if !seg.syn {
            return None;
        }
        let mut conn = Connection {
            state: State::SynRcvd,
            send: SendTcb { una: iss, nxt: iss, wnd: seg.window_size, up: false, iss },
            recv: RecvTcb {
                nxt: seg.sequence_number.wrapping_add(1),
                wnd: LOCAL_WINDOW,
                up: false,
                irs: seg.sequence_number,
            },
            template: Template {
                source: seg.destination,
                destination: seg.source,
                source_port: seg.destination_port,
                destination_port: seg.source_port,
                window_size: LOCAL_WINDOW,
                syn: true,
                ack: true,
                fin: false,
                rst: false,
            },
        };
        let none: Vec<u8> = Vec::new();
        conn.write(none.as_slice(), out);
        assert(none@.subrange(0, 0) =~= seq![]);
        Some(conn)
    }

    /// Handles one segment of this connection: the acceptance test, the
    /// receive sequence number, the acknowledgment, and the state's rule.
    /// Every segment sent carries no payload.
    pub fn on_packet(&mut self, seg: &Segment, payload: &[u8], out: &mut Vec<Emitted>) -> (r: Result<
        (),
        ConnError,
    >)
        requires
            old(self).wf(),
            payload@.len() <= MAX_INBOUND_PAYLOAD,
        ensures
            ({
                let t = transition(*old(self), *seg, payload@.len());
                &&& *final(self) == t.0
                &&& r == t.2
                &&& final(self).wf()
                &&& final(out)@.len() == old(out)@.len() + t.1.len()
                &&& final(out)@.subrange(0, old(out)@.len() as int) == old(out)@
                &&& forall|i: int|
                    old(out)@.len() <= i < final(out)@.len() ==> emitted_from(
                        t.1[i - old(out)@.len()],
                        #[trigger] final(out)@[i],
                        seq![],
                    )
            }),
    {
        let ghost c0 = *self;
        let ghost out0 = out@;
        let none: Vec<u8> = Vec::new();
        let mut len: u32 = payload.len() as u32;
        if seg.syn {
            len = len + 1;
        }
        if seg.fin {
            len = len + 1;
        }
        if !is_segment_acceptable(&self.recv, seg.sequence_number, len) {
            self.write(none.as_slice(), out);
            assert(none@.subrange(0, 0) =~= seq![]);
            return Ok(());
        }
        self.recv.nxt = self.recv.nxt.wrapping_add(len);
        if !seg.ack {
            return Ok(());
        }
        if !is_x_between(self.send.una, seg.acknowledgment_number, self.send.nxt.wrapping_add(1)) {
            if !self.state.is_synchronized() {
                self.template.rst = true;
                self.write(none.as_slice(), out);
                self.template.rst = false;
                assert(none@.subrange(0, 0) =~= seq![]);
            }
            return Ok(());
        }
        self.send.una = seg.acknowledgment_number;
        match self.state {
            State::SynRcvd => {
                if payload.len() > 0 || seg.fin {
                    return Err(ConnError::UnhandledState);
                }
                self.state = State::Estab;
                self.template.fin = true;
                self.write(none.as_slice(), out);
                self.state = State::FinWait1;
                assert(none@.subrange(0, 0) =~= seq![]);
                Ok(())
            },
            State::FinWait1 => {
                if payload.len() > 0 {
                    return Err(ConnError::UnhandledState);
                }
                if seg.fin {
                    self.template.fin = false;
                    self.write(none.as_slice(), out);
                    self.state = State::Closing;
                    assert(none@.subrange(0, 0) =~= seq![]);
                }
                Ok(())
            },
            _ => {
                if payload.len() > 0 || seg.fin {
                    return Err(ConnError::UnhandledState);
                }
                Ok(())
            },
        }
    }
}

/// A segment that occupies no sequence numbers and acknowledges nothing new
/// (no ACK, or one outside `(send.una, send.nxt]`), such as a redelivered
/// duplicate, leaves both control blocks of a connection as they were.
pub proof fn lemma_duplicate_segment_changes_nothing(c: Connection, seg: Segment)
    requires
        c.wf(),
        !seg.syn,
        !seg.fin,
        !seg.ack || !ack_acceptable(c.send, seg.acknowledgment_number),
    ensures
        transition(c, seg, 0).0.recv == c.recv,
        transition(c, seg, 0).0.send == c.send,
        transition(c, seg, 0).0.state == c.state,
{
}

/// On a connection that is not yet synchronized, an acceptable segment whose
/// acknowledgment number lies outside `(send.una, send.nxt]` is answered by
/// exactly one RST segment and leaves the state unchanged.
pub proof fn lemma_bad_ack_unsynchronized_resets(c: Connection, seg: Segment, payload_len: nat)
    requires
        c.wf(),
        !c.state.synchronized(),
        segment_acceptable(c.recv, seg.sequence_number, seg_len(seg, payload_len)),
        seg.ack,
        !ack_acceptable(c.send, seg.acknowledgment_number),
    ensures
        transition(c, seg, payload_len).0.state == c.state,
        transition(c, seg, payload_len).1.len() == 1,
        next_header(transition(c, seg, payload_len).1[0]).rst,
        transition(c, seg, payload_len).2 == Ok::<(), ConnError>(()),
{
}

/// The next expected receive sequence number moves only by the logical
/// length of an accepted segment: it stays where it was, or advances by
/// exactly that length.
pub proof fn lemma_recv_nxt_advances_by_segment_length(c: Connection, seg: Segment, payload_len: nat)
    requires
        c.wf(),
        payload_len <= MAX_INBOUND_PAYLOAD,
    ensures
        ({
            let nxt = transition(c, seg, payload_len).0.recv.nxt;
            nxt == c.recv.nxt || (segment_acceptable(
                c.recv,
                seg.sequence_number,
                seg_len(seg, payload_len),
            ) && nxt == c.recv.nxt.wrapping_add(seg_len(seg, payload_len) as u32))
        }),
{
}

/// Once a SYN has opened a connection from `iss`, the peer's ACK of
/// `iss + 1`, in sequence and with no data, moves it through Estab to
/// FinWait1: one FIN segment goes out and `send.nxt` passes the FIN too.
pub proof fn lemma_ack_of_syn_starts_close(iss: u32, syn: Segment, seg: Segment)
    requires
        syn.syn,
        seg.ack,
        !seg.syn,
        !seg.fin,
        seg.sequence_number == syn.sequence_number.wrapping_add(1),
        seg.acknowledgment_number == iss.wrapping_add(1),
    ensures
        ({
            let c = after_write(opened(iss, syn), 0);
            let t = transition(c, seg, 0);
            &&& c.state == State::SynRcvd
            &&& c.send.nxt == iss.wrapping_add(1)
            &&& t.0.state == State::FinWait1
            &&& t.0.send.una == iss.wrapping_add(1)
            &&& t.0.send.nxt == iss.wrapping_add(2)
            &&& t.1.len() == 1
            &&& next_header(t.1[0]).fin
            &&& next_header(t.1[0]).sequence_number == iss.wrapping_add(1)
            &&& t.2 == Ok::<(), ConnError>(())
        }),
{
}

/// In FinWait1, an in-window FIN with no data whose acknowledgment is
/// acceptable moves the connection to Closing and is answered by exactly one
/// acknowledgment, sent with the FIN flag clear.
pub proof fn lemma_fin_in_fin_wait1_closes(c: Connection, seg: Segment)
    requires
        c.wf(),
        c.state == State::FinWait1,
        seg.fin,
        seg.ack,
        segment_acceptable(c.recv, seg.sequence_number, seg_len(seg, 0)),
        ack_acceptable(c.send, seg.acknowledgment_number),
    ensures
        transition(c, seg, 0).0.state == State::Closing,
        transition(c, seg, 0).1.len() == 1,
        !next_header(transition(c, seg, 0).1[0]).fin,
        next_header(transition(c, seg, 0).1[0]).ack == c.template.ack,
        !transition(c, seg, 0).0.template.fin,
        transition(c, seg, 0).2 == Ok::<(), ConnError>(()),
{
}

} // verus!
