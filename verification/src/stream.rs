//! Consuming the stream of slot notifications.
//!
//! The consumer hands the worker the most recent slot only. It waits for one
//! notification, then takes every further one that is already queued and
//! keeps the last. An error of the stream is retried at once; the fifth error
//! in a row ends the worker. A stream that closes ends the wait without an
//! error.

use vstd::prelude::*;

verus! {

/// The number of stream errors in a row at which the consumer gives up.
pub const MAX_CONSECUTIVE_ERRORS: u32 = 5;

/// The announcement of one slot.
#[derive(Debug, Clone, Copy, PartialEq, Eq, Structural)]
pub struct SlotNotification {
    pub number: u64,
}

/// One item of the stream.
#[derive(Debug, Clone, Copy, PartialEq, Eq, Structural)]
pub enum StreamEvent {
    /// A slot was announced.
    Slot(SlotNotification),
    /// The stream reported an error in place of a slot.
    Error,
    /// The stream has ended.
    Closed,
}

/// Where the consumer stands between two items of the stream.
#[derive(Debug, Clone, Copy, PartialEq, Eq, Structural)]
pub enum SlotDrain {
    /// No slot has arrived yet. The next item is waited for.
    Awaiting { consecutive_errors: u32 },
    /// A slot has arrived. Items that are already queued replace it, and are
    /// asked for without waiting.
    Coalescing { latest: SlotNotification, drained: u64 },
}

/// What the consumer makes of one item.
#[derive(Debug, Clone, Copy, PartialEq, Eq, Structural)]
pub enum DrainStep {
    /// The consumer needs another item.
    Continue(SlotDrain),
    /// The consumer is done. `latest` is the slot to react to, or nothing where
    /// the stream has closed; `drained` counts the slots that were passed over.
    Done { latest: Option<SlotNotification>, drained: u64 },
    /// Too many errors in a row.
    Failed { consecutive_errors: u32 },
}

/// A count of drained slots, one more than `drained`, held at the largest
/// `u64` once it is reached.
pub open spec fn one_more(drained: u64) -> u64 {
    if drained < u64::MAX {
        (drained + 1) as u64
    } else {
        drained
    }
}

impl SlotDrain {
    /// The consumer at the start of a wait.
    pub open spec fn fresh() -> SlotDrain {
        SlotDrain::Awaiting { consecutive_errors: 0 }
    }

    /// What the consumer makes of `input`: an item of the stream, or nothing
    /// where no item was ready.
    pub open spec fn next(self, input: Option<StreamEvent>) -> DrainStep {
        match self {
            SlotDrain::Awaiting { consecutive_errors } => match input {
                Some(StreamEvent::Slot(slot)) => DrainStep::Continue(
                    SlotDrain::Coalescing { latest: slot, drained: 0 },
                ),
                Some(StreamEvent::Error) => if consecutive_errors + 1 >= MAX_CONSECUTIVE_ERRORS {
                    DrainStep::Failed { consecutive_errors: MAX_CONSECUTIVE_ERRORS }
                } else {
                    DrainStep::Continue(
                        SlotDrain::Awaiting { consecutive_errors: (consecutive_errors + 1) as u32 },
                    )
                },
                Some(StreamEvent::Closed) => DrainStep::Done { latest: None, drained: 0 },
                None => DrainStep::Continue(self),
            },
            SlotDrain::Coalescing { latest, drained } => match input {
                Some(StreamEvent::Slot(slot)) => DrainStep::Continue(
                    SlotDrain::Coalescing { latest: slot, drained: one_more(drained) },
                ),
                _ => DrainStep::Done { latest: Some(latest), drained },
            },
        }
    }

    /// Starts a wait for the next slot.
    pub fn new() -> (drain: SlotDrain)
        ensures
            drain == SlotDrain::fresh(),
    {
        SlotDrain::Awaiting { consecutive_errors: 0 }
    }

    /// Whether the next item is to be asked for without waiting.
    pub fn is_coalescing(&self) -> (coalescing: bool)
        ensures
            coalescing == (self is Coalescing),
    {
        match self {
            SlotDrain::Awaiting { .. } => false,
            SlotDrain::Coalescing { .. } => true,
        }
    }

    /// Takes one item of the stream, or the news that none was ready.
    pub fn step(self, input: Option<StreamEvent>) -> (step: DrainStep)
        ensures
            step == self.next(input),
    {
        match self {
            SlotDrain::Awaiting { consecutive_errors } => match input {
                Some(StreamEvent::Slot(slot)) => DrainStep::Continue(
                    SlotDrain::Coalescing { latest: slot, drained: 0 },
                ),
                Some(StreamEvent::Error) => if consecutive_errors >= MAX_CONSECUTIVE_ERRORS - 1 {
                    DrainStep::Failed { consecutive_errors: MAX_CONSECUTIVE_ERRORS }
                } else {
                    DrainStep::Continue(
                        SlotDrain::Awaiting { consecutive_errors: consecutive_errors + 1 },
                    )
                },
                Some(StreamEvent::Closed) => DrainStep::Done { latest: None, drained: 0 },
                None => DrainStep::Continue(self),
            },
            SlotDrain::Coalescing { latest, drained } => match input {
                Some(StreamEvent::Slot(slot)) => {
                    let drained = if drained < u64::MAX {
                        drained + 1
                    } else {
                        drained
                    };
                    DrainStep::Continue(SlotDrain::Coalescing { latest: slot, drained })
                },
                _ => DrainStep::Done { latest: Some(latest), drained },
            },
        }
    }
}

} // verus!
