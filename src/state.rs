use vstd::prelude::*;

verus! {

/// The states of a TCP connection.
#[derive(PartialEq, Eq, Structural, Clone, Copy, Debug)]
pub enum State {
    Closed,
    Listen,
    SynRcvd,
    SynSent,
    Estab,
    FinWait1,
    FinWait2,
    CloseWait,
    Closing,
    TimeWait,
}

impl State {
    /// Closed, Listen, SynRcvd and SynSent have not yet agreed on both
    /// sides' sequence numbers; every later state has.
    pub open spec fn synchronized(self) -> bool {
        !(self is Closed || self is Listen || self is SynRcvd || self is SynSent)
    }

    pub fn is_synchronized(&self) -> (r: bool)
        ensures
            r == self.synchronized(),
    {
        match *self {
            State::Closed => false,
            State::Listen => false,
            State::SynRcvd => false,
            State::SynSent => false,
            _ => true,
        }
    }
}

} // verus!
