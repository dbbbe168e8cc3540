//! The session engine: one handle that exclusively owns its channel and a
//! request-id counter, dispatches requests, correlates responses by id,
//! waits for frames by predicate under a poll budget, and runs the bounded
//! cooperative close. The counter starts at 1, advances by exactly 1 per
//! dispatched request — whether or not the write succeeds — and is never
//! reused or reset.

use vstd::prelude::*;
use crate::channel::{Channel, ChannelEvent, write_fault_at};
use crate::codec::{decoded_frame, encode_request, encoded_request, params_depth_ok, parse_frame, parms_view};
use crate::errors::{err_from_transport, MessageError, TransportError};
use crate::frame::{
    decoded_matches, frame_decodes, frame_matches, frame_matches_spec, Frame, Matcher, MatcherV,
};
use crate::params::ParamValue;

verus! {

/// How many polls a wait may spend when the caller gives no budget: a
/// generous but finite bound, so a forgotten timeout cannot hang forever.
pub const DEFAULT_WAIT_BUDGET: u64 = 300000;

/// How many polls the close handshake may spend draining acknowledgment.
pub const CLOSE_DRAIN_BUDGET: u64 = 100;

/// The poll budget a wait runs under: the caller's, or the default.
pub open spec fn budget_of(timeout: Option<u64>) -> nat {
    match timeout {
        Some(b) => b as nat,
        None => DEFAULT_WAIT_BUDGET as nat,
    }
}

/// How one wait call ends: a match at schedule position `at`, a surfaced
/// failure, or an exhausted budget. `cursor` is where the consumed prefix of
/// the schedule ends afterwards.
pub enum WaitRes {
    Matched { at: int, cursor: int },
    Failed { err: MessageError, cursor: int },
    TimedOut { cursor: int },
}

/// The wait loop, step by step, over the channel's event schedule `sch`
/// starting at position `c` with `budget` polls left. Each poll consumes one
/// budget unit. A delivered frame that decodes and satisfies the matcher ends
/// the wait; one that decodes and does not match is discarded; one that does
/// not decode, or a transport failure, aborts the wait with that error;
/// nothing-ready keeps polling. Past the end of the schedule the channel is
/// idle, so the wait can only time out where it stands.
pub open spec fn wait_from(sch: Seq<ChannelEvent>, c: int, budget: nat, m: MatcherV) -> WaitRes
    decreases budget,
{
    if budget <= 0 {
        WaitRes::TimedOut { cursor: c }
    } else if c >= sch.len() {
        WaitRes::TimedOut { cursor: c }
    } else {
        match sch[c] {
            ChannelEvent::Empty => wait_from(sch, c + 1, (budget - 1) as nat, m),
            ChannelEvent::Broken(te) => WaitRes::Failed {
                err: err_from_transport(te),
                cursor: c + 1,
            },
            ChannelEvent::Delivered(t) => match decoded_frame(t@) {
                None => WaitRes::Failed { err: MessageError::InvalidResponse, cursor: c + 1 },
                Some(d) => if decoded_matches(m, d) {
                    WaitRes::Matched { at: c, cursor: c + 1 }
                } else {
                    wait_from(sch, c + 1, (budget - 1) as nat, m)
                },
            },
        }
    }
}

/// What a wait's result and final cursor must look like, given where the
/// step-by-step spec says the wait ends.
pub open spec fn wait_post(
    sch: Seq<ChannelEvent>,
    c0: int,
    budget: nat,
    m: MatcherV,
    r: Result<Frame, MessageError>,
    c1: int,
) -> bool {
    match wait_from(sch, c0, budget, m) {
        WaitRes::Matched { at, cursor } => {
            &&& c1 == cursor
            &&& r is Ok
            &&& (sch[at] matches ChannelEvent::Delivered(t) && frame_decodes(r->Ok_0, t@))
            &&& frame_matches_spec(m, r->Ok_0)
        },
        WaitRes::Failed { err, cursor } => c1 == cursor && r == Err::<Frame, MessageError>(err),
        WaitRes::TimedOut { cursor } => c1 == cursor && r == Err::<Frame, MessageError>(
            MessageError::NoMessage,
        ),
    }
}

/// An event that the close drain treats as acknowledgment: the transport
/// reports the channel closed.
pub open spec fn is_close_ack(ev: ChannelEvent) -> bool {
    ||| ev == ChannelEvent::Broken(TransportError::ConnectionClosed)
    ||| ev == ChannelEvent::Broken(TransportError::AlreadyClosed)
}

/// Where the close drain leaves the cursor: it polls until it sees a close
/// acknowledgment (consuming it) or its budget runs out, and stops early on
/// an idle channel.
pub open spec fn drain_cursor(sch: Seq<ChannelEvent>, c: int, budget: nat) -> int
    decreases budget,
{
    if budget <= 0 {
        c
    } else if c >= sch.len() {
        c
    } else if is_close_ack(sch[c]) {
        c + 1
    } else {
        drain_cursor(sch, c + 1, (budget - 1) as nat)
    }
}

/// One event a predicate wait consumes and keeps waiting on: nothing was
/// ready, or a frame that decoded and was refused by the caller's predicate.
pub open spec fn rejected_by<F: Fn(&Frame) -> bool>(ev: ChannelEvent, f: F) -> bool {
    match ev {
        ChannelEvent::Empty => true,
        ChannelEvent::Delivered(t) => decoded_frame(t@) is Some && (exists|g: Frame|
            frame_decodes(g, t@) && f.ensures((&g,), false)),
        ChannelEvent::Broken(te) => false,
    }
}

/// The decision the receive path takes on one polled event: nothing ready is
/// `NoMessage`, a transport failure surfaces as the matching session error, a
/// delivered frame is decoded or rejected as malformed.
pub fn receive_outcome(ev: ChannelEvent) -> (r: Result<Frame, MessageError>)
    ensures
        (match ev {
            ChannelEvent::Empty => r == Err::<Frame, MessageError>(MessageError::NoMessage),
            ChannelEvent::Broken(te) => r == Err::<Frame, MessageError>(err_from_transport(te)),
            ChannelEvent::Delivered(t) => (match decoded_frame(t@) {
                None => r == Err::<Frame, MessageError>(MessageError::InvalidResponse),
                Some(d) => r is Ok && frame_decodes(r->Ok_0, t@),
            }),
        }),
{
    match ev {
        ChannelEvent::Empty => Err(MessageError::NoMessage),
        ChannelEvent::Broken(te) => Err(MessageError::from(te)),
        ChannelEvent::Delivered(t) => match parse_frame(t.as_str()) {
            None => Err(MessageError::InvalidResponse),
            Some(f) => Ok(f),
        },
    }
}

/// Whether a transport failure is the acknowledgment the close drain waits
/// for.
pub fn is_ack_error(te: &TransportError) -> (b: bool)
    ensures
        b == (te is ConnectionClosed || te is AlreadyClosed),
{
    match te {
        TransportError::ConnectionClosed => true,
        TransportError::AlreadyClosed => true,
        _ => false,
    }
}

/// Whether one polled event is the acknowledgment the close drain waits for.
pub fn close_ack_event(ev: &ChannelEvent) -> (b: bool)
    ensures
        b == is_close_ack(*ev),
{
    match ev {
        ChannelEvent::Broken(te) => is_ack_error(te),
        _ => false,
    }
}

/// What the wait loop does with one receive outcome.
pub enum WaitStep {
    /// The wait is over: hand this to the caller.
    Settle(Result<Frame, MessageError>),
    /// The frame was discarded, or nothing was ready: poll again.
    KeepPolling,
}

/// The wait loop's decision on one receive outcome: a frame the predicate
/// accepts settles the wait with that frame, a frame it refuses is discarded,
/// nothing-ready keeps polling, and any other error settles the wait with
/// exactly that error. A driver that waits on a live channel runs this
/// decision on each outcome of its own receive step.
pub fn wait_step<F: Fn(&Frame) -> bool>(r: Result<Frame, MessageError>, f: &F) -> (s: WaitStep)
    requires
        forall|fr: &Frame| #[trigger] f.requires((fr,)),
    ensures
        (match r {
            Ok(g) => {
                ||| (s == WaitStep::Settle(Ok::<Frame, MessageError>(g)) && f.ensures((&g,), true))
                ||| (s == WaitStep::KeepPolling && f.ensures((&g,), false))
            },
            Err(e) => {
                if e == MessageError::NoMessage {
                    s == WaitStep::KeepPolling
                } else {
                    s == WaitStep::Settle(Err::<Frame, MessageError>(e))
                }
            },
        }),
{
    match r {
        Ok(g) => {
            if f(&g) {
                WaitStep::Settle(Ok(g))
            } else {
                WaitStep::KeepPolling
            }
        },
        Err(MessageError::NoMessage) => WaitStep::KeepPolling,
        Err(e) => WaitStep::Settle(Err(e)),
    }
}

/// The dispatch's last decision, applied to what its wait returned: a matched
/// frame that carries an `error` field rejects the request with the full
/// frame; everything else passes through unchanged.
pub fn conclude_send(r: Result<Frame, MessageError>) -> (out: Result<Frame, MessageError>)
    ensures
        (match r {
            Ok(f) => {
                if f.has_error {
                    out == Err::<Frame, MessageError>(MessageError::InvalidRequest(f))
                } else {
                    out == Ok::<Frame, MessageError>(f)
                }
            },
            Err(e) => out == Err::<Frame, MessageError>(e),
        }),
{
    match r {
        Ok(f) => {
            if f.has_error {
                Err(MessageError::InvalidRequest(f))
            } else {
                Ok(f)
            }
        },
        Err(e) => Err(e),
    }
}

/// A connection to the browser instance which can be used to send requests
/// and receive frames. The handle exclusively owns its channel and its id
/// counter; `close` is the cooperative close handshake, the step a driver
/// that owns a live channel runs when its handle is discarded.
pub struct CdpConnection {
    /// The established duplex channel.
    pub channel: Channel,
    /// The id the next dispatched request will carry.
    pub message_id: i64,
    /// The counter's starting value (1 for a fresh handle).
    pub start_id: Ghost<int>,
    /// Every id captured for a dispatched request, in dispatch order.
    pub dispatched: Ghost<Seq<i64>>,
}

impl CdpConnection {
    /// The handle's invariant: the channel is well-formed and the captured
    /// ids are exactly start, start+1, ... up to the counter.
    pub open spec fn wf(&self) -> bool {
        &&& self.channel.wf()
        &&& 1 <= self.start_id@ <= self.message_id
        &&& self.start_id@ + self.dispatched@.len() == self.message_id
        &&& forall|i: int|
            0 <= i < self.dispatched@.len() ==> self.dispatched@[i] == self.start_id@ + i
    }

    /// Everything a receive-side operation leaves alone.
    pub open spec fn same_but_cursor(&self, other: CdpConnection) -> bool {
        &&& self.channel.same_but_cursor(other.channel)
        &&& self.message_id == other.message_id
        &&& self.start_id == other.start_id
        &&& self.dispatched == other.dispatched
    }

    /// A fresh handle over an established channel; the id counter starts
    /// at 1.
    pub fn new(channel: Channel) -> (c: CdpConnection)
        requires
            channel.wf(),
        ensures
            c.wf(),
            c.channel == channel,
            c.message_id == 1,
            c.start_id@ == 1,
            c.dispatched@ == Seq::<i64>::empty(),
    {
        CdpConnection { channel, message_id: 1, start_id: Ghost(1), dispatched: Ghost(Seq::empty()) }
    }

    /// Reads exactly one frame if one is ready and decodes it. Never blocks:
    /// an idle channel reports `NoMessage`; a transport failure or a frame
    /// that does not decode surfaces as its error.
    pub fn wait_message(&mut self) -> (r: Result<Frame, MessageError>)
        requires
            old(self).wf(),
        ensures
            final(self).wf(),
            final(self).same_but_cursor(*old(self)),
            ({
                let sch = old(self).channel.incoming@;
                let c = old(self).channel.cursor as int;
                if c >= sch.len() {
                    &&& r == Err::<Frame, MessageError>(MessageError::NoMessage)
                    &&& final(self).channel.cursor == old(self).channel.cursor
                } else {
                    &&& final(self).channel.cursor == c + 1
                    &&& (match sch[c] {
                        ChannelEvent::Empty => r == Err::<Frame, MessageError>(
                            MessageError::NoMessage,
                        ),
                        ChannelEvent::Broken(te) => r == Err::<Frame, MessageError>(
                            err_from_transport(te),
                        ),
                        ChannelEvent::Delivered(t) => (match decoded_frame(t@) {
                            None => r == Err::<Frame, MessageError>(MessageError::InvalidResponse),
                            Some(d) => r is Ok && frame_decodes(r->Ok_0, t@),
                        }),
                    })
                }
            }),
    {
        let ev = self.channel.poll();
        receive_outcome(ev)
    }

    /// The wait loop under an explicit matcher: polls, discards frames that
    /// decode but do not match, surfaces every failure, and gives up with
    /// `NoMessage` once `budget` polls are spent. The result is exactly what
    /// the step-by-step `wait_from` spec says for the channel's schedule.
    pub fn wait_matching(&mut self, budget: u64, m: &Matcher) -> (r: Result<Frame, MessageError>)
        requires
            old(self).wf(),
        ensures
            final(self).wf(),
            final(self).same_but_cursor(*old(self)),
            old(self).channel.cursor <= final(self).channel.cursor,
            wait_post(
                old(self).channel.incoming@,
                old(self).channel.cursor as int,
                budget as nat,
                m@,
                r,
                final(self).channel.cursor as int,
            ),
    {
        let ghost sch = self.channel.incoming@;
        let ghost c0 = self.channel.cursor as int;
        let mut remaining: u64 = budget;
        loop
            invariant
                self.wf(),
                self.same_but_cursor(*old(self)),
                remaining <= budget,
                c0 <= self.channel.cursor as int,
                sch == self.channel.incoming@,
                c0 == old(self).channel.cursor as int,
                sch == old(self).channel.incoming@,
                wait_from(sch, self.channel.cursor as int, remaining as nat, m@) == wait_from(
                    sch,
                    c0,
                    budget as nat,
                    m@,
                ),
            decreases remaining,
        {
            if remaining == 0 {
                return Err(MessageError::NoMessage);
            }
            let ghost c_here = self.channel.cursor as int;
            let r = self.wait_message();
            match r {
                Ok(f) => {
                    proof {
                        let t = sch[c_here]->Delivered_0;
                        crate::frame::lemma_frame_matches_decoded(m@, f, t@);
                    }
                    if frame_matches(m, &f) {
                        return Ok(f);
                    }
                },
                Err(MessageError::NoMessage) => {},
                Err(e) => {
                    return Err(e);
                },
            }
            remaining = remaining - 1;
        }
    }

    /// Waits for the first frame whose `method` equals the given event name;
    /// frames with a different or missing `method` are discarded without
    /// error. `timeout` is a poll budget; `None` means the default budget.
    pub fn wait_event(&mut self, event: &str, timeout: Option<u64>) -> (r: Result<
        Frame,
        MessageError,
    >)
        requires
            old(self).wf(),
        ensures
            final(self).wf(),
            final(self).same_but_cursor(*old(self)),
            old(self).channel.cursor <= final(self).channel.cursor,
            wait_post(
                old(self).channel.incoming@,
                old(self).channel.cursor as int,
                budget_of(timeout),
                MatcherV::Event(event@),
                r,
                final(self).channel.cursor as int,
            ),
    {
        let m = Matcher::Event(event.to_owned());
        let budget: u64 = match timeout {
            Some(t) => t,
            None => DEFAULT_WAIT_BUDGET,
        };
        self.wait_matching(budget, &m)
    }

    /// Waits for the first frame the caller's own predicate accepts, under
    /// the same budget and discard policy as every wait. A frame that decodes
    /// and is refused by the predicate is discarded; a transport failure or a
    /// frame that does not decode aborts the wait with exactly that error; an
    /// exhausted budget, and nothing else, reports `NoMessage`. The handle's
    /// counter and send-side state are untouched.
    pub fn wait_for<F: Fn(&Frame) -> bool>(&mut self, timeout: Option<u64>, f: F) -> (r: Result<
        Frame,
        MessageError,
    >)
        requires
            old(self).wf(),
            forall|fr: &Frame| #[trigger] f.requires((fr,)),
        ensures
            final(self).wf(),
            final(self).same_but_cursor(*old(self)),
            old(self).channel.cursor <= final(self).channel.cursor,
            ({
                let sch = old(self).channel.incoming@;
                let c0 = old(self).channel.cursor as int;
                let c1 = final(self).channel.cursor as int;
                let b = budget_of(timeout);
                match r {
                    Ok(g) => {
                        &&& c0 <= c1 - 1 < sch.len()
                        &&& c1 - c0 <= b
                        &&& (sch[c1 - 1] matches ChannelEvent::Delivered(t) && frame_decodes(
                            g,
                            t@,
                        ))
                        &&& f.ensures((&g,), true)
                        &&& forall|i: int| c0 <= i < c1 - 1 ==> rejected_by(#[trigger] sch[i], f)
                    },
                    Err(e) => {
                        if e == MessageError::NoMessage {
                            &&& c1 - c0 <= b
                            &&& (c1 - c0 == b || c1 == sch.len())
                            &&& forall|i: int| c0 <= i < c1 ==> rejected_by(#[trigger] sch[i], f)
                        } else {
                            &&& c0 <= c1 - 1 < sch.len()
                            &&& c1 - c0 <= b
                            &&& (match sch[c1 - 1] {
                                ChannelEvent::Broken(te) => e == err_from_transport(te),
                                ChannelEvent::Delivered(t) => decoded_frame(t@) is None && e
                                    == MessageError::InvalidResponse,
                                ChannelEvent::Empty => false,
                            })
                            &&& forall|i: int|
                                c0 <= i < c1 - 1 ==> rejected_by(#[trigger] sch[i], f)
                        }
                    },
                }
            }),
    {
        let budget: u64 = match timeout {
            Some(t) => t,
            None => DEFAULT_WAIT_BUDGET,
        };
        let ghost sch = self.channel.incoming@;
        let ghost c0 = self.channel.cursor as int;
        let mut remaining: u64 = budget;
        loop
            invariant
                self.wf(),
                self.same_but_cursor(*old(self)),
                remaining <= budget,
                budget as nat == budget_of(timeout),
                c0 == old(self).channel.cursor as int,
                sch == old(self).channel.incoming@,
                sch == self.channel.incoming@,
                c0 <= self.channel.cursor as int,
                self.channel.cursor as int - c0 <= budget - remaining,
                self.channel.cursor as int - c0 == budget - remaining || self.channel.cursor
                    as int == sch.len(),
                forall|i: int|
                    c0 <= i < self.channel.cursor as int ==> rejected_by(#[trigger] sch[i], f),
                forall|fr: &Frame| #[trigger] f.requires((fr,)),
            decreases remaining,
        {
            if remaining == 0 {
                return Err(MessageError::NoMessage);
            }
            let ghost c_here = self.channel.cursor as int;
            let r = self.wait_message();
            match r {
                Ok(fr) => {
                    let accepted = f(&fr);
                    if accepted {
                        return Ok(fr);
                    }
                    proof {
                        let t = sch[c_here]->Delivered_0;
                        assert(frame_decodes(fr, t@) && f.ensures((&fr,), false));
                        assert(rejected_by(sch[c_here], f));
                    }
                },
                Err(MessageError::NoMessage) => {},
                Err(e) => {
                    return Err(e);
                },
            }
            remaining = remaining - 1;
        }
    }

    /// Dispatches one request and waits for its correlated response. The id
    /// is captured before dispatch; the counter advances exactly once whether
    /// or not the write succeeds, so an id is never reused even for a failed
    /// send. A matched frame that carries an `error` field fails the call
    /// with `InvalidRequest` holding the full frame; a write failure aborts
    /// the call with `NetworkError` carrying its cause.
    pub fn send(&mut self, method: &'static str, parms: Vec<(&'static str, ParamValue)>) -> (r:
        Result<Frame, MessageError>)
        requires
            old(self).wf(),
            old(self).message_id < i64::MAX,
            old(self).channel.writes < usize::MAX,
        ensures
            final(self).wf(),
            final(self).message_id == old(self).message_id + 1,
            final(self).start_id == old(self).start_id,
            final(self).dispatched@ == old(self).dispatched@.push(old(self).message_id),
            final(self).channel.incoming == old(self).channel.incoming,
            final(self).channel.write_faults == old(self).channel.write_faults,
            final(self).channel.writes == old(self).channel.writes + 1,
            final(self).channel.close_fails == old(self).channel.close_fails,
            final(self).channel.closed == old(self).channel.closed,
            (match write_fault_at(old(self).channel, old(self).channel.writes as int) {
                Some(te) => {
                    &&& r == Err::<Frame, MessageError>(MessageError::NetworkError(te))
                    &&& final(self).channel.sent == old(self).channel.sent
                    &&& final(self).channel.cursor == old(self).channel.cursor
                },
                None => {
                    &&& final(self).channel.sent@.len() == old(self).channel.sent@.len() + 1
                    &&& final(self).channel.sent@.last()@ == encoded_request(
                        old(self).message_id,
                        method@,
                        parms_view(parms@),
                    )
                    &&& params_depth_ok(parms@) ==> decoded_frame(
                        final(self).channel.sent@.last()@,
                    ) == Some((Some(old(self).message_id), Some(method@), false, false))
                    &&& final(self).channel.sent@.drop_last() == old(self).channel.sent@
                    &&& (match wait_from(
                        old(self).channel.incoming@,
                        old(self).channel.cursor as int,
                        DEFAULT_WAIT_BUDGET as nat,
                        MatcherV::Response(old(self).message_id),
                    ) {
                        WaitRes::Matched { at, cursor } => {
                            &&& final(self).channel.cursor == cursor
                            &&& (old(self).channel.incoming@[at] matches ChannelEvent::Delivered(t)
                                && (if (decoded_frame(t@)->0).3 {
                                r matches Err(MessageError::InvalidRequest(f)) && frame_decodes(
                                    f,
                                    t@,
                                )
                            } else {
                                r is Ok && frame_decodes(r->Ok_0, t@)
                            }))
                        },
                        WaitRes::Failed { err, cursor } => final(self).channel.cursor == cursor && r
                            == Err::<Frame, MessageError>(err),
                        WaitRes::TimedOut { cursor } => final(self).channel.cursor == cursor && r
                            == Err::<Frame, MessageError>(MessageError::NoMessage),
                    })
                },
            }),
    {
        let message_id = self.message_id;
        let text = encode_request(message_id, method, &parms);
        self.message_id = self.message_id + 1;
        proof {
            self.dispatched@ = self.dispatched@.push(message_id);
        }
        let m = Matcher::Response(message_id);
        match self.channel.write(text) {
            Err(te) => Err(MessageError::NetworkError(te)),
            Ok(()) => {
                let waited = self.wait_matching(DEFAULT_WAIT_BUDGET, &m);
                conclude_send(waited)
            },
        }
    }

    /// The cooperative close handshake, run when the handle is discarded.
    /// Sends the close frame; if that fails the handshake is abandoned.
    /// Otherwise it drains the channel until the transport acknowledges the
    /// close or the fixed budget of polls is spent — it never blocks past
    /// that budget and never panics, so destruction always completes.
    pub fn close(&mut self)
        requires
            old(self).wf(),
        ensures
            final(self).wf(),
            final(self).message_id == old(self).message_id,
            final(self).start_id == old(self).start_id,
            final(self).dispatched == old(self).dispatched,
            final(self).channel.incoming == old(self).channel.incoming,
            final(self).channel.sent == old(self).channel.sent,
            final(self).channel.write_faults == old(self).channel.write_faults,
            final(self).channel.writes == old(self).channel.writes,
            final(self).channel.close_fails == old(self).channel.close_fails,
            final(self).channel.closed == (old(self).channel.closed || !old(
                self,
            ).channel.close_fails),
            old(self).channel.close_fails ==> final(self).channel.cursor == old(
                self,
            ).channel.cursor,
            !old(self).channel.close_fails ==> final(self).channel.cursor as int == drain_cursor(
                old(self).channel.incoming@,
                old(self).channel.cursor as int,
                CLOSE_DRAIN_BUDGET as nat,
            ),
            final(self).channel.cursor as int <= old(self).channel.cursor as int
                + CLOSE_DRAIN_BUDGET,
    {
        let ghost sch = self.channel.incoming@;
        let ghost c0 = self.channel.cursor as int;
        if self.channel.close() {
            let mut attempts: u64 = 0;
            loop
                invariant
                    self.wf(),
                    attempts <= CLOSE_DRAIN_BUDGET,
                    sch == self.channel.incoming@,
                    self.channel.incoming == old(self).channel.incoming,
                    c0 == old(self).channel.cursor as int,
                    sch == old(self).channel.incoming@,
                    !old(self).channel.close_fails,
                    self.message_id == old(self).message_id,
                    self.start_id == old(self).start_id,
                    self.dispatched == old(self).dispatched,
                    self.channel.sent == old(self).channel.sent,
                    self.channel.write_faults == old(self).channel.write_faults,
                    self.channel.writes == old(self).channel.writes,
                    self.channel.close_fails == old(self).channel.close_fails,
                    self.channel.closed,
                    c0 <= self.channel.cursor as int,
                    self.channel.cursor as int <= c0 + attempts,
                    drain_cursor(sch, self.channel.cursor as int, (CLOSE_DRAIN_BUDGET - attempts) as nat)
                        == drain_cursor(sch, c0, CLOSE_DRAIN_BUDGET as nat),
                decreases CLOSE_DRAIN_BUDGET - attempts,
            {
                if attempts == CLOSE_DRAIN_BUDGET {
                    return ;
                }
                let ev = self.channel.poll();
                if close_ack_event(&ev) {
                    return ;
                }
                attempts = attempts + 1;
            }
        }
    }
}

/// Law: over a handle's whole lifetime the captured request ids are exactly
/// the consecutive run start, start+1, ... — strictly increasing with no
/// repeats and no gaps — even when some dispatches failed at the transport,
/// since the counter advances on every dispatch.
pub proof fn lemma_request_ids_consecutive(c: CdpConnection)
    requires
        c.wf(),
    ensures
        forall|i: int| 0 <= i < c.dispatched@.len() ==> c.dispatched@[i] == c.start_id@ + i,
        forall|i: int, j: int|
            0 <= i < j < c.dispatched@.len() ==> c.dispatched@[i] < c.dispatched@[j],
        c.dispatched@.len() == c.message_id - c.start_id@,
{
}

/// Law: a wait that matches returns the first satisfying frame of the
/// schedule. Every event consumed before the match was either nothing-ready
/// or a frame that decoded and did not satisfy the matcher — so a response
/// frame carrying a foreign id, or an event frame with a different or
/// missing method, is discarded and never matched.
pub proof fn lemma_wait_matches_first(sch: Seq<ChannelEvent>, c: int, budget: nat, m: MatcherV)
    ensures
        (match wait_from(sch, c, budget, m) {
            WaitRes::Matched { at, cursor } => {
                &&& c <= at < sch.len()
                &&& cursor == at + 1
                &&& (sch[at] matches ChannelEvent::Delivered(t) && decoded_frame(t@) is Some
                    && decoded_matches(m, decoded_frame(t@)->0))
                &&& forall|i: int|
                    c <= i < at ==> (#[trigger] sch[i] matches ChannelEvent::Empty || (
                    sch[i] matches ChannelEvent::Delivered(t) && decoded_frame(t@) is Some
                        && !decoded_matches(m, decoded_frame(t@)->0)))
            },
            _ => true,
        }),
    decreases budget,
{
    if budget > 0 && c < sch.len() {
        match sch[c] {
            ChannelEvent::Empty => {
                lemma_wait_matches_first(sch, c + 1, (budget - 1) as nat, m);
            },
            ChannelEvent::Broken(te) => {},
            ChannelEvent::Delivered(t) => {
                if decoded_frame(t@) is Some && !decoded_matches(m, decoded_frame(t@)->0) {
                    lemma_wait_matches_first(sch, c + 1, (budget - 1) as nat, m);
                }
            },
        }
    }
}

/// Law: while awaiting the response to request id `k`, the matched frame —
/// when there is one — decodes with id exactly `k` and a `result` or `error`
/// field; every correlated response with any other id was discarded first.
pub proof fn lemma_foreign_id_never_matched(sch: Seq<ChannelEvent>, c: int, budget: nat, k: i64)
    ensures
        (match wait_from(sch, c, budget, MatcherV::Response(k)) {
            WaitRes::Matched { at, cursor } => sch[at] matches ChannelEvent::Delivered(t) && {
                let d = decoded_frame(t@)->0;
                d.0 == Some(k) && (d.2 || d.3)
            },
            _ => true,
        }),
{
    lemma_wait_matches_first(sch, c, budget, MatcherV::Response(k));
}

/// Law: an event wait returns the first frame whose `method` equals the
/// awaited name; every frame consumed before it either had a different
/// method, no method at all, or was nothing-ready — none of which is an
/// error.
pub proof fn lemma_event_wait_first_named(sch: Seq<ChannelEvent>, c: int, budget: nat, name: Seq<
    char,
>)
    ensures
        (match wait_from(sch, c, budget, MatcherV::Event(name)) {
            WaitRes::Matched { at, cursor } => {
                &&& (sch[at] matches ChannelEvent::Delivered(t) && (decoded_frame(t@)->0).1
                    == Some(name))
                &&& forall|i: int|
                    c <= i < at ==> (#[trigger] sch[i] matches ChannelEvent::Empty || (
                    sch[i] matches ChannelEvent::Delivered(t) && decoded_frame(t@) is Some && (
                    decoded_frame(t@)->0).1 != Some(name)))
            },
            _ => true,
        }),
{
    lemma_wait_matches_first(sch, c, budget, MatcherV::Event(name));
}

/// Law: a frame that satisfies the response matcher for request id `k`
/// carries exactly that id — so the response a dispatch returns, matched
/// through its own captured id, answers that request and no other.
pub proof fn lemma_matched_response_carries_awaited_id(k: i64, f: Frame)
    requires
        frame_matches_spec(MatcherV::Response(k), f),
    ensures
        f.id == Some(k),
        f.has_result || f.has_error,
{
}

/// Law: a wait given a zero poll budget reports `NoMessage` at once, where
/// it stands — it never blocks, whatever the schedule holds.
pub proof fn lemma_zero_budget_times_out(sch: Seq<ChannelEvent>, c: int, m: MatcherV)
    ensures
        wait_from(sch, c, 0, m) == (WaitRes::TimedOut { cursor: c }),
{
}

/// Law: the close drain advances the cursor by at most its poll budget, so
/// destruction of a handle whose peer never acknowledges the close still
/// completes within the fixed budget.
pub proof fn lemma_drain_bounded(sch: Seq<ChannelEvent>, c: int, budget: nat)
    ensures
        c <= drain_cursor(sch, c, budget) <= c + budget,
    decreases budget,
{
    if budget > 0 && c < sch.len() && !is_close_ack(sch[c]) {
        lemma_drain_bounded(sch, c + 1, (budget - 1) as nat);
    }
}

} // verus!
