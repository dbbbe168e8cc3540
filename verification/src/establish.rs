//! Session establishment: the resolved endpoints of a channel address are
//! tried in a fixed priority order — lower-level address families first —
//! and each candidate's upgrade handshake is driven until it succeeds, is
//! rejected, or asks to be resumed. Only when every candidate is exhausted
//! does the whole attempt fail. The transport work (opening the socket,
//! running one handshake step) is the driver's; the decisions are here.

use vstd::prelude::*;

verus! {

/// One resolved network endpoint: its address family and its position in
/// the resolver's original candidate list, so the driver can find the real
/// address again.
#[derive(Clone, Copy, Debug, PartialEq, Eq, Structural)]
pub struct Endpoint {
    /// Whether the endpoint belongs to the higher-level address family.
    pub v6: bool,
    /// The endpoint's position in the resolver's original list.
    pub index: usize,
}

/// The lower-family endpoints of `s`, in their original order.
pub open spec fn v4_part(s: Seq<Endpoint>) -> Seq<Endpoint>
    decreases s.len(),
{
    if s.len() == 0 {
        Seq::empty()
    } else {
        let rest = v4_part(s.drop_last());
        if s.last().v6 {
            rest
        } else {
            rest.push(s.last())
        }
    }
}

/// The higher-family endpoints of `s`, in their original order.
pub open spec fn v6_part(s: Seq<Endpoint>) -> Seq<Endpoint>
    decreases s.len(),
{
    if s.len() == 0 {
        Seq::empty()
    } else {
        let rest = v6_part(s.drop_last());
        if s.last().v6 {
            rest.push(s.last())
        } else {
            rest
        }
    }
}

/// Orders the candidates for connection attempts: every lower-family
/// endpoint first, then the higher-family ones, the original order kept
/// within each family.
pub fn prioritize(cands: &Vec<Endpoint>) -> (r: Vec<Endpoint>)
    ensures
        r@ == v4_part(cands@) + v6_part(cands@),
{
    let mut out: Vec<Endpoint> = Vec::new();
    let mut i: usize = 0;
    while i < cands.len()
        invariant
            i <= cands@.len(),
            out@ == v4_part(cands@.subrange(0, i as int)),
        decreases cands@.len() - i,
    {
        proof {
            assert(cands@.subrange(0, i + 1 as int).drop_last() =~= cands@.subrange(0, i as int));
        }
        if !cands[i].v6 {
            out.push(cands[i]);
        }
        i = i + 1;
    }
    let mut j: usize = 0;
    while j < cands.len()
        invariant
            j <= cands@.len(),
            out@ == v4_part(cands@.subrange(0, cands@.len() as int)) + v6_part(
                cands@.subrange(0, j as int),
            ),
        decreases cands@.len() - j,
    {
        proof {
            assert(cands@.subrange(0, j + 1 as int).drop_last() =~= cands@.subrange(0, j as int));
        }
        if cands[j].v6 {
            out.push(cands[j]);
        }
        j = j + 1;
    }
    proof {
        assert(cands@.subrange(0, cands@.len() as int) =~= cands@);
    }
    out
}

/// Where one establishment attempt stands.
#[derive(Clone, Copy, Debug, PartialEq, Eq, Structural)]
pub enum Phase {
    /// A transport is being opened to the current candidate.
    Dialing,
    /// The upgrade handshake on the current candidate is in progress.
    Handshaking,
    /// A channel is established.
    Done,
    /// Every candidate is exhausted.
    Failed,
}

/// What the transport reported for the step the driver just performed.
#[derive(Clone, Copy, Debug, PartialEq, Eq, Structural)]
pub enum ConnectEvent {
    /// The transport to the current candidate could not be opened.
    TcpFailed,
    /// The transport is open; the handshake can start.
    TcpOpened,
    /// The upgrade handshake completed.
    HandshakeDone,
    /// The peer refused the upgrade: this candidate is abandoned.
    HandshakeRejected,
    /// The handshake needs another read/write cycle on the same candidate:
    /// a continuation signal, not a failure.
    HandshakeInterrupted,
}

/// What the driver must do next.
#[derive(Clone, Copy, Debug, PartialEq, Eq, Structural)]
pub enum ConnectAction {
    /// Open the transport to this candidate.
    Dial(Endpoint),
    /// Drive one more handshake step on the current candidate.
    ResumeHandshake,
    /// The channel is established: hand it to a fresh session handle.
    Established,
    /// Report that the connection cannot be made.
    Fail,
}

/// The establishment state machine. The driver performs each returned
/// action against the real transport and feeds the outcome back as the next
/// event.
pub struct Establisher {
    /// The candidates, already in priority order.
    pub cands: Vec<Endpoint>,
    /// The candidate currently being tried.
    pub pos: usize,
    /// Where the attempt stands.
    pub phase: Phase,
}

impl Establisher {
    /// While a candidate is being tried, it is one of the list.
    pub open spec fn wf(&self) -> bool {
        (self.phase is Dialing || self.phase is Handshaking) ==> self.pos < self.cands@.len()
    }

    /// The events that can answer the action last returned.
    pub open spec fn expects(&self, ev: ConnectEvent) -> bool {
        match self.phase {
            Phase::Dialing => ev is TcpFailed || ev is TcpOpened,
            Phase::Handshaking => ev is HandshakeDone || ev is HandshakeRejected
                || ev is HandshakeInterrupted,
            _ => false,
        }
    }

    /// Begins an attempt over candidates already in priority order.
    /// Resolution that produced no candidates is fatal at once; otherwise the
    /// first candidate is dialed.
    pub fn start(cands: Vec<Endpoint>) -> (r: (Establisher, ConnectAction))
        ensures
            r.0.wf(),
            r.0.cands == cands,
            r.0.pos == 0,
            cands@.len() == 0 ==> r.0.phase is Failed && r.1 is Fail,
            cands@.len() > 0 ==> r.0.phase is Dialing && r.1 == ConnectAction::Dial(cands@[0]),
    {
        if cands.len() == 0 {
            (Establisher { cands, pos: 0, phase: Phase::Failed }, ConnectAction::Fail)
        } else {
            let first = cands[0];
            (Establisher { cands, pos: 0, phase: Phase::Dialing }, ConnectAction::Dial(first))
        }
    }

    /// Advances the attempt on one transport outcome. A refused transport or
    /// a rejected handshake abandons the current candidate and dials the next
    /// one — the whole attempt fails only once every candidate is exhausted.
    /// An interrupted handshake stays on the same candidate and is resumed; a
    /// completed handshake establishes the channel.
    pub fn on_event(&mut self, ev: ConnectEvent) -> (a: ConnectAction)
        requires
            old(self).wf(),
            old(self).expects(ev),
        ensures
            final(self).wf(),
            final(self).cands == old(self).cands,
            (match ev {
                ConnectEvent::TcpOpened | ConnectEvent::HandshakeInterrupted => {
                    &&& final(self).phase is Handshaking
                    &&& final(self).pos == old(self).pos
                    &&& a is ResumeHandshake
                },
                ConnectEvent::HandshakeDone => {
                    &&& final(self).phase is Done
                    &&& final(self).pos == old(self).pos
                    &&& a is Established
                },
                ConnectEvent::TcpFailed | ConnectEvent::HandshakeRejected => {
                    if old(self).pos + 1 < old(self).cands@.len() {
                        &&& final(self).phase is Dialing
                        &&& final(self).pos == old(self).pos + 1
                        &&& a == ConnectAction::Dial(old(self).cands@[old(self).pos + 1])
                    } else {
                        &&& final(self).phase is Failed
                        &&& a is Fail
                    }
                },
            }),
    {
        match ev {
            ConnectEvent::TcpOpened | ConnectEvent::HandshakeInterrupted => {
                self.phase = Phase::Handshaking;
                ConnectAction::ResumeHandshake
            },
            ConnectEvent::HandshakeDone => {
                self.phase = Phase::Done;
                ConnectAction::Established
            },
            ConnectEvent::TcpFailed | ConnectEvent::HandshakeRejected => {
                let n = self.cands.len();
                if self.pos + 1 < n {
                    self.pos = self.pos + 1;
                    self.phase = Phase::Dialing;
                    ConnectAction::Dial(self.cands[self.pos])
                } else {
                    self.phase = Phase::Failed;
                    ConnectAction::Fail
                }
            },
        }
    }
}

} // verus!
