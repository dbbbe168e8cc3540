//! The engine's view of the established duplex channel: a source of discrete
//! events, one per poll, a sink for outgoing text frames, and a close
//! primitive. The schedule of incoming events and of write outcomes is plain
//! data, so everything the engine does with a channel is verified; the real
//! transport behind it hands the engine one `ChannelEvent` per poll.

use vstd::prelude::*;
use crate::errors::TransportError;

verus! {

/// What one poll of the channel yields.
#[derive(Debug)]
pub enum ChannelEvent {
    /// One text frame arrived.
    Delivered(String),
    /// Nothing is ready right now.
    Empty,
    /// The transport failed while reading.
    Broken(TransportError),
}

impl Clone for ChannelEvent {
    fn clone(&self) -> (r: Self)
        ensures
            r == *self,
    {
        match self {
            ChannelEvent::Delivered(t) => ChannelEvent::Delivered(t.clone()),
            ChannelEvent::Empty => ChannelEvent::Empty,
            ChannelEvent::Broken(te) => ChannelEvent::Broken(*te),
        }
    }
}

/// The duplex channel as the engine owns it. `incoming` is the schedule of
/// events the transport will deliver, `cursor` how many of them have been
/// consumed; past the end of the schedule the channel is idle and every poll
/// yields `Empty`. Writes append to `sent` unless the fault schedule makes
/// the attempt fail; a failed write still counts as an attempt.
pub struct Channel {
    /// The events the transport delivers, in arrival order.
    pub incoming: Vec<ChannelEvent>,
    /// How many incoming events have been consumed.
    pub cursor: usize,
    /// The text frames written so far, in order, failed attempts left out.
    pub sent: Vec<String>,
    /// The outcome of each write attempt: `Some` makes that attempt fail.
    /// Attempts past the end of this schedule succeed.
    pub write_faults: Vec<Option<TransportError>>,
    /// How many write attempts have been made.
    pub writes: usize,
    /// Whether the cooperative close itself fails when attempted.
    pub close_fails: bool,
    /// Whether a cooperative close frame has been sent.
    pub closed: bool,
}

/// The fault, if any, that write attempt number `n` runs into.
pub open spec fn write_fault_at(ch: Channel, n: int) -> Option<TransportError> {
    if 0 <= n < ch.write_faults@.len() {
        ch.write_faults@[n]
    } else {
        None
    }
}

impl Channel {
    /// The consumed prefix never exceeds the schedule.
    pub open spec fn wf(&self) -> bool {
        self.cursor <= self.incoming@.len()
    }

    /// The parts of the channel a read leaves alone.
    pub open spec fn same_but_cursor(&self, other: Channel) -> bool {
        &&& self.incoming == other.incoming
        &&& self.sent == other.sent
        &&& self.write_faults == other.write_faults
        &&& self.writes == other.writes
        &&& self.close_fails == other.close_fails
        &&& self.closed == other.closed
    }

    /// A fresh channel that will deliver the given events, with every write
    /// succeeding and the cooperative close available.
    pub fn new(incoming: Vec<ChannelEvent>) -> (ch: Channel)
        ensures
            ch.incoming == incoming,
            ch.cursor == 0,
            ch.sent@ == Seq::<String>::empty(),
            ch.write_faults@ == Seq::<Option<TransportError>>::empty(),
            ch.writes == 0,
            !ch.close_fails,
            !ch.closed,
            ch.wf(),
    {
        Channel {
            incoming,
            cursor: 0,
            sent: Vec::new(),
            write_faults: Vec::new(),
            writes: 0,
            close_fails: false,
            closed: false,
        }
    }

    /// Reads the next event: the scheduled one, or `Empty` once the schedule
    /// is exhausted. Never blocks.
    pub fn poll(&mut self) -> (ev: ChannelEvent)
        requires
            old(self).wf(),
        ensures
            final(self).wf(),
            final(self).same_but_cursor(*old(self)),
            old(self).cursor < old(self).incoming@.len() ==> {
                &&& ev == old(self).incoming@[old(self).cursor as int]
                &&& final(self).cursor == old(self).cursor + 1
            },
            old(self).cursor >= old(self).incoming@.len() ==> {
                &&& ev == ChannelEvent::Empty
                &&& final(self).cursor == old(self).cursor
            },
    {
        if self.cursor < self.incoming.len() {
            let ev = self.incoming[self.cursor].clone();
            self.cursor = self.cursor + 1;
            ev
        } else {
            ChannelEvent::Empty
        }
    }

    /// Writes one text frame. The attempt is counted whether or not it
    /// succeeds; only a successful write is recorded in `sent`.
    pub fn write(&mut self, text: String) -> (r: Result<(), TransportError>)
        requires
            old(self).wf(),
            old(self).writes < usize::MAX,
        ensures
            final(self).wf(),
            final(self).writes == old(self).writes + 1,
            final(self).incoming == old(self).incoming,
            final(self).cursor == old(self).cursor,
            final(self).write_faults == old(self).write_faults,
            final(self).close_fails == old(self).close_fails,
            final(self).closed == old(self).closed,
            (match write_fault_at(*old(self), old(self).writes as int) {
                Some(te) => r == Err::<(), TransportError>(te) && final(self).sent
                    == old(self).sent,
                None => r == Ok::<(), TransportError>(()) && final(self).sent@ == old(
                    self,
                ).sent@.push(text),
            }),
    {
        let attempt = self.writes;
        self.writes = self.writes + 1;
        if attempt < self.write_faults.len() {
            if let Some(te) = self.write_faults[attempt] {
                return Err(te);
            }
        }
        self.sent.push(text);
        Ok(())
    }

    /// Attempts the cooperative close. Reports whether the close frame went
    /// out; nothing is consumed either way.
    pub fn close(&mut self) -> (ok: bool)
        requires
            old(self).wf(),
        ensures
            final(self).wf(),
            ok == !old(self).close_fails,
            final(self).incoming == old(self).incoming,
            final(self).cursor == old(self).cursor,
            final(self).sent == old(self).sent,
            final(self).write_faults == old(self).write_faults,
            final(self).writes == old(self).writes,
            final(self).close_fails == old(self).close_fails,
            final(self).closed == (old(self).closed || !old(self).close_fails),
    {
        if self.close_fails {
            false
        } else {
            self.closed = true;
            true
        }
    }
}

} // verus!
