//! Waiting for the read API to show a newly announced slot.
//!
//! A slot is announced before the read API reflects it. The poller reads the
//! visible slot every 10 ms until it lies strictly above the last one that
//! the worker has seen. After 600 reads without progress it gives up: that is
//! a defect of the sequencer or of the harness, and is not retried.

use vstd::prelude::*;

verus! {

/// The pause between two reads of the visible slot, in milliseconds.
pub const POLL_INTERVAL_MS: u64 = 10;

/// The number of reads after which the poller gives up.
pub const MAX_POLL_ATTEMPTS: u32 = 600;

/// The visible slot did not move in time.
#[derive(Debug, Clone, Copy, PartialEq, Eq, Structural)]
pub struct VisibilityTimeout {
    /// The slot whose announcement started the wait.
    pub slot_number: u64,
    /// The visible slot that had to be passed.
    pub expected_visible_slot: u64,
    /// The visible slot that the API reported last.
    pub api_visible_slot: u64,
}

/// One wait for the read API, between two reads.
#[derive(Debug, Clone, Copy, PartialEq, Eq, Structural)]
pub struct VisibilityPoll {
    /// The slot whose announcement started the wait.
    pub slot_number: u64,
    /// The visible slot that the worker saw last.
    pub last_visible_slot: u64,
    /// The number of reads that showed no progress.
    pub attempt: u32,
}

/// What the poller makes of one read.
#[derive(Debug, Clone, Copy, PartialEq, Eq, Structural)]
pub enum PollStep {
    /// The API has caught up. `waited_ms` is the time spent pausing.
    Visible { visible_slot: u64, waited_ms: u64 },
    /// No progress yet: pause, then read again.
    Retry(VisibilityPoll),
    /// No progress in time.
    TimedOut(VisibilityTimeout),
}

impl VisibilityPoll {
    /// The poller before its first read.
    pub open spec fn starting(slot_number: u64, last_visible_slot: u64) -> VisibilityPoll {
        VisibilityPoll { slot_number, last_visible_slot, attempt: 0 }
    }

    /// What the poller makes of a read that gave `visible_slot`.
    pub open spec fn next(self, visible_slot: u64) -> PollStep {
        if visible_slot > self.last_visible_slot {
            PollStep::Visible {
                visible_slot,
                waited_ms: (self.attempt * POLL_INTERVAL_MS) as u64,
            }
        } else if self.attempt + 1 >= MAX_POLL_ATTEMPTS {
            PollStep::TimedOut(
                VisibilityTimeout {
                    slot_number: self.slot_number,
                    expected_visible_slot: self.last_visible_slot,
                    api_visible_slot: visible_slot,
                },
            )
        } else {
            PollStep::Retry(VisibilityPoll { attempt: (self.attempt + 1) as u32, ..self })
        }
    }

    /// What the poller makes of a run of reads, one after the other. Reads that
    /// come after the poller has returned or given up change nothing.
    pub open spec fn run(self, reads: Seq<u64>) -> PollStep
        decreases reads.len(),
    {
        if reads.len() == 0 {
            PollStep::Retry(self)
        } else {
            match self.run(reads.drop_last()) {
                PollStep::Retry(poll) => poll.next(reads.last()),
                ended => ended,
            }
        }
    }

    /// Starts the wait that follows the announcement of `slot_number`.
    pub fn new(slot_number: u64, last_visible_slot: u64) -> (poll: VisibilityPoll)
        ensures
            poll == VisibilityPoll::starting(slot_number, last_visible_slot),
    {
        VisibilityPoll { slot_number, last_visible_slot, attempt: 0 }
    }

    /// Takes one read of the visible slot.
    pub fn on_read(self, visible_slot: u64) -> (step: PollStep)
        ensures
            step == self.next(visible_slot),
    {
        if visible_slot > self.last_visible_slot {
            let pauses: u64 = self.attempt as u64;
            PollStep::Visible { visible_slot, waited_ms: pauses * POLL_INTERVAL_MS }
        } else if self.attempt >= MAX_POLL_ATTEMPTS - 1 {
            PollStep::TimedOut(
                VisibilityTimeout {
                    slot_number: self.slot_number,
                    expected_visible_slot: self.last_visible_slot,
                    api_visible_slot: visible_slot,
                },
            )
        } else {
            PollStep::Retry(
                VisibilityPoll {
                    slot_number: self.slot_number,
                    last_visible_slot: self.last_visible_slot,
                    attempt: self.attempt + 1,
                },
            )
        }
    }
}

/// The poller never returns a visible slot at or below the one that the
/// worker saw last, and returns every one above it.
pub proof fn law_returns_only_progress(poll: VisibilityPoll, visible_slot: u64)
    ensures
        poll.next(visible_slot) is Visible <==> visible_slot > poll.last_visible_slot,
        poll.next(visible_slot) matches PollStep::Visible { visible_slot: returned, .. }
            ==> returned == visible_slot,
{
}

/// While the reads show no progress and fewer than 600 were made, the poller
/// goes on, and has counted them.
pub proof fn lemma_no_progress_keeps_polling(
    slot_number: u64,
    last_visible_slot: u64,
    reads: Seq<u64>,
)
    requires
        reads.len() < MAX_POLL_ATTEMPTS,
        forall|i: int| 0 <= i < reads.len() ==> reads[i] <= last_visible_slot,
    ensures
        VisibilityPoll::starting(slot_number, last_visible_slot).run(reads) == PollStep::Retry(
            VisibilityPoll { slot_number, last_visible_slot, attempt: reads.len() as u32 },
        ),
    decreases reads.len(),
{
    if reads.len() > 0 {
        lemma_no_progress_keeps_polling(slot_number, last_visible_slot, reads.drop_last());
    }
}

/// With a reader that shows progress on its `k`-th read and not before, for a
/// `k` of at most 600, the poller returns on the `k`-th read, with the value
/// of that read, and has not returned before it.
pub proof fn law_returns_on_first_progress(
    slot_number: u64,
    last_visible_slot: u64,
    reads: Seq<u64>,
    k: int,
)
    requires
        1 <= k <= MAX_POLL_ATTEMPTS,
        k <= reads.len(),
        forall|i: int| 0 <= i < k - 1 ==> reads[i] <= last_visible_slot,
        reads[k - 1] > last_visible_slot,
    ensures
        VisibilityPoll::starting(slot_number, last_visible_slot).run(reads.take(k))
            == (PollStep::Visible {
            visible_slot: reads[k - 1],
            waited_ms: ((k - 1) * POLL_INTERVAL_MS) as u64,
        }),
        forall|j: int|
            0 <= j < k ==> VisibilityPoll::starting(slot_number, last_visible_slot).run(
                #[trigger] reads.take(j),
            ) is Retry,
{
    let start = VisibilityPoll::starting(slot_number, last_visible_slot);
    assert forall|j: int| 0 <= j < k implies start.run(#[trigger] reads.take(j)) is Retry by {
        lemma_no_progress_keeps_polling(slot_number, last_visible_slot, reads.take(j));
    }
    assert(reads.take(k).drop_last() =~= reads.take(k - 1));
    lemma_no_progress_keeps_polling(slot_number, last_visible_slot, reads.take(k - 1));
}

/// With a reader that shows no progress in 600 reads, the poller gives up on
/// the 600th, and names the slot, the visible slot it waited to pass, and the
/// one it read last.
pub proof fn law_gives_up_after_all_attempts(
    slot_number: u64,
    last_visible_slot: u64,
    reads: Seq<u64>,
)
    requires
        reads.len() == MAX_POLL_ATTEMPTS,
        forall|i: int| 0 <= i < reads.len() ==> reads[i] <= last_visible_slot,
    ensures
        VisibilityPoll::starting(slot_number, last_visible_slot).run(reads) == PollStep::TimedOut(
            VisibilityTimeout {
                slot_number,
                expected_visible_slot: last_visible_slot,
                api_visible_slot: reads.last(),
            },
        ),
{
    lemma_no_progress_keeps_polling(slot_number, last_visible_slot, reads.drop_last());
}

} // verus!
