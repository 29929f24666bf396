//! The life of the validation worker, as a state machine.
//!
//! The worker owns the decisions and nothing else. Whoever drives it performs
//! the action that a step asks for (sample the shutdown signal, take an item
//! of the slot stream, read from the API, submit a transaction) and hands the
//! result back as the next event.
//!
//! One cycle runs `AwaitingSlot`, `PollingVisibility`, `ReadingKernelState`,
//! `Submitting` and back. The worker leaves the cycle for `ShuttingDown` when
//! the shutdown signal is set at the top of a cycle, when the stream closes,
//! or when a slot at or past the stop height is announced. A failed read, a
//! visible slot that does not move, too many stream errors and a fatal
//! submission end the run in `Failed`.

use crate::poller::{
    PollStep, VisibilityPoll, VisibilityTimeout, MAX_POLL_ATTEMPTS, POLL_INTERVAL_MS,
};
use crate::stream::{DrainStep, SlotDrain, StreamEvent, MAX_CONSECUTIVE_ERRORS};
use crate::submitter::{
    classified, classify_submission, AssertionOutcome, AssertionRequest, SubmissionError,
};
use vstd::prelude::*;

verus! {

/// A read of the API that failed.
#[derive(Debug, PartialEq, Eq)]
pub struct ReadError {
    /// The error as the client prints it.
    pub description: String,
}

/// Why a run failed.
#[derive(Debug, PartialEq, Eq)]
pub enum WorkerError {
    /// The slot stream failed too many times in a row.
    TooManyStreamErrors { consecutive_errors: u32 },
    /// The read API did not catch up with an announced slot.
    VisibilityTimeout(VisibilityTimeout),
    /// A read of the API failed.
    ReadFailed(ReadError),
    /// The sequencer refused an assertion, and not for a benign reason.
    SubmissionFailed { visible_slot: u64, rollup_height: u64, cause: SubmissionError },
}

/// Why a run ended without an error.
#[derive(Debug, Clone, Copy, PartialEq, Eq, Structural)]
pub enum StopReason {
    /// The shutdown signal was set at the top of a cycle.
    ShutdownRequested,
    /// The slot stream has closed.
    StreamClosed,
    /// A slot at or past the stop height was announced.
    StopHeightReached { slot_number: u64 },
}

/// Where the worker stands in its cycle.
#[derive(Debug, Clone, Copy, PartialEq, Eq, Structural)]
pub enum Phase {
    /// Waiting for the next slot. Without a `drain` the cycle has not begun:
    /// the shutdown signal is sampled first.
    AwaitingSlot { drain: Option<SlotDrain> },
    /// Waiting for the read API to show the slot.
    PollingVisibility { poll: VisibilityPoll },
    /// Reading the rollup height and the state root.
    ReadingKernelState { visible_slot: u64 },
    /// Waiting for the sequencer's answer to the assertion.
    Submitting { visible_slot: u64, rollup_height: u64 },
    /// The run has ended without an error.
    ShuttingDown,
    /// The run has ended with an error.
    Failed,
}

/// The worker between two steps.
#[derive(Debug, Clone, Copy, PartialEq, Eq, Structural)]
pub struct Worker {
    /// The height at which the rollup is set to halt.
    pub rollup_stop_height: u64,
    /// The visible slot of the last cycle that was completed.
    pub last_visible_slot: u64,
    pub phase: Phase,
}

/// What the driver reports back.
#[derive(Debug, PartialEq, Eq)]
pub enum Event {
    /// The value of the shutdown signal. Answers `Action::SampleShutdown`.
    ShutdownSignal(bool),
    /// An item of the slot stream, or nothing where none was ready. Answers
    /// `Action::AwaitSlot` and `Action::PollSlot`.
    Stream(Option<StreamEvent>),
    /// A read of the visible slot. Answers `Action::ReadVisibleSlot`.
    VisibleSlot(Result<u64, ReadError>),
    /// The reads of the state root and of the rollup height, both done.
    /// Answers `Action::ReadKernelState`.
    KernelState { state_root: Result<Vec<u8>, ReadError>, rollup_height: Result<u64, ReadError> },
    /// The sequencer's answer to the assertion. Answers `Action::Submit`.
    Submitted(Result<(), SubmissionError>),
}

/// What the driver is to do next.
#[derive(Debug, PartialEq, Eq)]
pub enum Action {
    /// Read the shutdown signal.
    SampleShutdown,
    /// Wait for the next item of the slot stream, however long it takes.
    AwaitSlot,
    /// Take the next item of the slot stream if one is ready, without
    /// waiting.
    PollSlot,
    /// Pause for `after_ms` milliseconds, then read the visible slot.
    ReadVisibleSlot { after_ms: u64 },
    /// Read the state root and the rollup height, both at once, and wait for
    /// both.
    ReadKernelState,
    /// Sign the request with a key made for it alone and submit it.
    Submit(AssertionRequest),
    /// End the run without an error.
    Stop(StopReason),
    /// End the run with this error.
    Fail(WorkerError),
}

/// Something worth a line in the log.
#[derive(Debug, Clone, Copy, PartialEq, Eq, Structural)]
pub enum Notice {
    /// The slot stream reported an error.
    StreamError { attempt: u32, max_attempts: u32 },
    /// A slot was announced.
    SlotReceived { slot_number: u64 },
    /// Slots were passed over because they came faster than they were
    /// validated.
    SlotsDrained { count: u64 },
    /// The read API has caught up.
    VisibilityReached { waited_ms: u64 },
    /// The sequencer has reached its stop height.
    SequencerStopHeight,
    /// The rollup had passed the asserted height: the assertion was skipped.
    AssertionTooLate { visible_slot: u64, rollup_height: u64 },
}

/// The result of one step.
#[derive(Debug, PartialEq, Eq)]
pub struct Step {
    pub worker: Worker,
    pub action: Action,
    pub notice: Option<Notice>,
}

/// An event that the worker was not waiting for, handed back with the worker.
#[derive(Debug, PartialEq, Eq)]
pub struct Rejected {
    pub worker: Worker,
    pub event: Event,
}

/// The action that asks for the next item of the stream.
pub open spec fn stream_action(drain: SlotDrain) -> Action {
    if drain is Coalescing {
        Action::PollSlot
    } else {
        Action::AwaitSlot
    }
}

/// The log line that goes with an item of the stream.
pub open spec fn stream_notice(drain: SlotDrain, input: Option<StreamEvent>) -> Option<Notice> {
    match (drain, input) {
        (SlotDrain::Awaiting { consecutive_errors }, Some(StreamEvent::Error)) => Some(
            Notice::StreamError {
                attempt: if consecutive_errors + 1 >= MAX_CONSECUTIVE_ERRORS {
                    MAX_CONSECUTIVE_ERRORS
                } else {
                    (consecutive_errors + 1) as u32
                },
                max_attempts: MAX_CONSECUTIVE_ERRORS,
            },
        ),
        (SlotDrain::Awaiting { .. }, Some(StreamEvent::Slot(slot))) => Some(
            Notice::SlotReceived { slot_number: slot.number },
        ),
        (SlotDrain::Coalescing { drained, .. }, Some(StreamEvent::Slot(_))) => None,
        (SlotDrain::Coalescing { drained, .. }, _) => if drained > 0 {
            Some(Notice::SlotsDrained { count: drained })
        } else {
            None
        },
        _ => None,
    }
}

/// The log line that goes with a benign outcome.
pub open spec fn outcome_notice(
    outcome: AssertionOutcome,
    visible_slot: u64,
    rollup_height: u64,
) -> Option<Notice> {
    match outcome {
        AssertionOutcome::SkippedStopHeight => Some(Notice::SequencerStopHeight),
        AssertionOutcome::SkippedTooLate { .. } => Some(
            Notice::AssertionTooLate { visible_slot, rollup_height },
        ),
        _ => None,
    }
}

impl Worker {
    /// The worker at the top of its first cycle.
    pub open spec fn starting(rollup_stop_height: u64, initial_visible_slot: u64) -> Worker {
        Worker {
            rollup_stop_height,
            last_visible_slot: initial_visible_slot,
            phase: Phase::AwaitingSlot { drain: None },
        }
    }

    /// The worker in another phase.
    pub open spec fn in_phase(self, phase: Phase) -> Worker {
        Worker { phase, ..self }
    }

    /// The values that a phase carries fit the worker: fewer stream errors
    /// and fewer reads without progress than end a run, a wait for visibility
    /// that is a wait to pass the cursor, and a polled visible slot that lies
    /// above the cursor.
    pub open spec fn wf(self) -> bool {
        match self.phase {
            Phase::AwaitingSlot { drain: Some(SlotDrain::Awaiting { consecutive_errors }) } => {
                consecutive_errors < MAX_CONSECUTIVE_ERRORS
            },
            Phase::PollingVisibility { poll } => {
                &&& poll.last_visible_slot == self.last_visible_slot
                &&& poll.attempt < MAX_POLL_ATTEMPTS
            },
            Phase::ReadingKernelState { visible_slot } => visible_slot > self.last_visible_slot,
            Phase::Submitting { visible_slot, .. } => visible_slot > self.last_visible_slot,
            _ => true,
        }
    }

    /// The run has ended.
    pub open spec fn ended(self) -> bool {
        self.phase is ShuttingDown || self.phase is Failed
    }

    /// The worker is waiting for this kind of event.
    pub open spec fn awaits(self, event: Event) -> bool {
        match self.phase {
            Phase::AwaitingSlot { drain: None } => event is ShutdownSignal,
            Phase::AwaitingSlot { drain: Some(_) } => event is Stream,
            Phase::PollingVisibility { .. } => event is VisibleSlot,
            Phase::ReadingKernelState { .. } => event is KernelState,
            Phase::Submitting { .. } => event is Submitted,
            Phase::ShuttingDown => false,
            Phase::Failed => false,
        }
    }

    /// The step from the top of a cycle, once the shutdown signal was read.
    pub open spec fn after_shutdown_signal(self, requested: bool) -> Step {
        if requested {
            Step {
                worker: self.in_phase(Phase::ShuttingDown),
                action: Action::Stop(StopReason::ShutdownRequested),
                notice: None,
            }
        } else {
            Step {
                worker: self.in_phase(Phase::AwaitingSlot { drain: Some(SlotDrain::fresh()) }),
                action: Action::AwaitSlot,
                notice: None,
            }
        }
    }

    /// The step that takes an item of the slot stream.
    pub open spec fn after_stream(self, drain: SlotDrain, input: Option<StreamEvent>) -> Step {
        let notice = stream_notice(drain, input);
        match drain.next(input) {
            DrainStep::Continue(drain) => Step {
                worker: self.in_phase(Phase::AwaitingSlot { drain: Some(drain) }),
                action: stream_action(drain),
                notice,
            },
            DrainStep::Failed { consecutive_errors } => Step {
                worker: self.in_phase(Phase::Failed),
                action: Action::Fail(WorkerError::TooManyStreamErrors { consecutive_errors }),
                notice,
            },
            DrainStep::Done { latest: None, .. } => Step {
                worker: self.in_phase(Phase::ShuttingDown),
                action: Action::Stop(StopReason::StreamClosed),
                notice,
            },
            DrainStep::Done { latest: Some(slot), .. } => if slot.number
                >= self.rollup_stop_height {
                Step {
                    worker: self.in_phase(Phase::ShuttingDown),
                    action: Action::Stop(
                        StopReason::StopHeightReached { slot_number: slot.number },
                    ),
                    notice,
                }
            } else {
                Step {
                    worker: self.in_phase(
                        Phase::PollingVisibility {
                            poll: VisibilityPoll::starting(slot.number, self.last_visible_slot),
                        },
                    ),
                    action: Action::ReadVisibleSlot { after_ms: 0 },
                    notice,
                }
            },
        }
    }

    /// The step that takes a read of the visible slot.
    pub open spec fn after_visible_slot(
        self,
        poll: VisibilityPoll,
        read: Result<u64, ReadError>,
    ) -> Step {
        match read {
            Ok(visible_slot) => match poll.next(visible_slot) {
                PollStep::Visible { visible_slot, waited_ms } => Step {
                    worker: self.in_phase(Phase::ReadingKernelState { visible_slot }),
                    action: Action::ReadKernelState,
                    notice: Some(Notice::VisibilityReached { waited_ms }),
                },
                PollStep::Retry(poll) => Step {
                    worker: self.in_phase(Phase::PollingVisibility { poll }),
                    action: Action::ReadVisibleSlot { after_ms: POLL_INTERVAL_MS },
                    notice: None,
                },
                PollStep::TimedOut(timeout) => Step {
                    worker: self.in_phase(Phase::Failed),
                    action: Action::Fail(WorkerError::VisibilityTimeout(timeout)),
                    notice: None,
                },
            },
            Err(error) => Step {
                worker: self.in_phase(Phase::Failed),
                action: Action::Fail(WorkerError::ReadFailed(error)),
                notice: None,
            },
        }
    }

    /// The step that takes the state root and the rollup height. Where both
    /// reads failed, the run fails with the error of the state root.
    pub open spec fn after_kernel_state(
        self,
        visible_slot: u64,
        state_root: Result<Vec<u8>, ReadError>,
        rollup_height: Result<u64, ReadError>,
    ) -> Step {
        match (state_root, rollup_height) {
            (Ok(state_root), Ok(rollup_height)) => Step {
                worker: self.in_phase(Phase::Submitting { visible_slot, rollup_height }),
                action: Action::Submit(
                    AssertionRequest {
                        expected_visible_slot: visible_slot,
                        expected_rollup_height: rollup_height,
                        expected_state_root: state_root,
                        nonce: 0,
                    },
                ),
                notice: None,
            },
            (Err(error), _) => Step {
                worker: self.in_phase(Phase::Failed),
                action: Action::Fail(WorkerError::ReadFailed(error)),
                notice: None,
            },
            (Ok(_), Err(error)) => Step {
                worker: self.in_phase(Phase::Failed),
                action: Action::Fail(WorkerError::ReadFailed(error)),
                notice: None,
            },
        }
    }

    /// The step that takes the sequencer's answer.
    pub open spec fn after_submission(
        self,
        visible_slot: u64,
        rollup_height: u64,
        result: Result<(), SubmissionError>,
    ) -> Step {
        match classified(result, rollup_height) {
            AssertionOutcome::Fatal(cause) => Step {
                worker: self.in_phase(Phase::Failed),
                action: Action::Fail(
                    WorkerError::SubmissionFailed { visible_slot, rollup_height, cause },
                ),
                notice: None,
            },
            benign => Step {
                worker: Worker {
                    rollup_stop_height: self.rollup_stop_height,
                    last_visible_slot: visible_slot,
                    phase: Phase::AwaitingSlot { drain: None },
                },
                action: Action::SampleShutdown,
                notice: outcome_notice(benign, visible_slot, rollup_height),
            },
        }
    }

    /// The step that `event` causes, where the worker is waiting for it.
    pub open spec fn next(self, event: Event) -> Option<Step> {
        match (self.phase, event) {
            (Phase::AwaitingSlot { drain: None }, Event::ShutdownSignal(requested)) => Some(
                self.after_shutdown_signal(requested),
            ),
            (Phase::AwaitingSlot { drain: Some(drain) }, Event::Stream(input)) => Some(
                self.after_stream(drain, input),
            ),
            (Phase::PollingVisibility { poll }, Event::VisibleSlot(read)) => Some(
                self.after_visible_slot(poll, read),
            ),
            (
                Phase::ReadingKernelState { visible_slot },
                Event::KernelState { state_root, rollup_height },
            ) => Some(self.after_kernel_state(visible_slot, state_root, rollup_height)),
            (Phase::Submitting { visible_slot, rollup_height }, Event::Submitted(result)) => Some(
                self.after_submission(visible_slot, rollup_height, result),
            ),
            _ => None,
        }
    }

    /// The worker after a run of events. An event that the worker is not
    /// waiting for changes nothing.
    pub open spec fn after(self, events: Seq<Event>) -> Worker
        decreases events.len(),
    {
        if events.len() == 0 {
            self
        } else {
            let before = self.after(events.drop_last());
            match before.next(events.last()) {
                Some(step) => step.worker,
                None => before,
            }
        }
    }

    /// Starts a worker whose cursor is the visible slot that was read at
    /// startup.
    pub fn start(rollup_stop_height: u64, initial_visible_slot: u64) -> (step: Step)
        ensures
            step == (Step {
                worker: Worker::starting(rollup_stop_height, initial_visible_slot),
                action: Action::SampleShutdown,
                notice: None,
            }),
            step.worker.wf(),
    {
        Step {
            worker: Worker {
                rollup_stop_height,
                last_visible_slot: initial_visible_slot,
                phase: Phase::AwaitingSlot { drain: None },
            },
            action: Action::SampleShutdown,
            notice: None,
        }
    }

    /// Whether the run has ended.
    pub fn has_ended(&self) -> (ended: bool)
        ensures
            ended == self.ended(),
    {
        match self.phase {
            Phase::ShuttingDown => true,
            Phase::Failed => true,
            _ => false,
        }
    }

    fn with_phase(self, phase: Phase) -> (worker: Worker)
        ensures
            worker == self.in_phase(phase),
    {
        Worker {
            rollup_stop_height: self.rollup_stop_height,
            last_visible_slot: self.last_visible_slot,
            phase,
        }
    }

    fn on_shutdown_signal(self, requested: bool) -> (step: Step)
        ensures
            step == self.after_shutdown_signal(requested),
    {
        if requested {
            Step {
                worker: self.with_phase(Phase::ShuttingDown),
                action: Action::Stop(StopReason::ShutdownRequested),
                notice: None,
            }
        } else {
            Step {
                worker: self.with_phase(Phase::AwaitingSlot { drain: Some(SlotDrain::new()) }),
                action: Action::AwaitSlot,
                notice: None,
            }
        }
    }

    fn on_stream(self, drain: SlotDrain, input: Option<StreamEvent>) -> (step: Step)
        ensures
            step == self.after_stream(drain, input),
    {
        let notice = notice_for_stream(drain, input);
        match drain.step(input) {
            DrainStep::Continue(drain) => {
                let action = if drain.is_coalescing() {
                    Action::PollSlot
                } else {
                    Action::AwaitSlot
                };
                Step {
                    worker: self.with_phase(Phase::AwaitingSlot { drain: Some(drain) }),
                    action,
                    notice,
                }
            },
            DrainStep::Failed { consecutive_errors } => Step {
                worker: self.with_phase(Phase::Failed),
                action: Action::Fail(WorkerError::TooManyStreamErrors { consecutive_errors }),
                notice,
            },
            DrainStep::Done { latest: None, .. } => Step {
                worker: self.with_phase(Phase::ShuttingDown),
                action: Action::Stop(StopReason::StreamClosed),
                notice,
            },
            DrainStep::Done { latest: Some(slot), .. } => {
                if slot.number >= self.rollup_stop_height {
                    Step {
                        worker: self.with_phase(Phase::ShuttingDown),
                        action: Action::Stop(
                            StopReason::StopHeightReached { slot_number: slot.number },
                        ),
                        notice,
                    }
                } else {
                    let poll = VisibilityPoll::new(slot.number, self.last_visible_slot);
                    Step {
                        worker: self.with_phase(Phase::PollingVisibility { poll }),
                        action: Action::ReadVisibleSlot { after_ms: 0 },
                        notice,
                    }
                }
            },
        }
    }

    fn on_visible_slot(self, poll: VisibilityPoll, read: Result<u64, ReadError>) -> (step: Step)
        ensures
            step == self.after_visible_slot(poll, read),
    {
        match read {
            Ok(visible_slot) => match poll.on_read(visible_slot) {
                PollStep::Visible { visible_slot, waited_ms } => Step {
                    worker: self.with_phase(Phase::ReadingKernelState { visible_slot }),
                    action: Action::ReadKernelState,
                    notice: Some(Notice::VisibilityReached { waited_ms }),
                },
                PollStep::Retry(poll) => Step {
                    worker: self.with_phase(Phase::PollingVisibility { poll }),
                    action: Action::ReadVisibleSlot { after_ms: POLL_INTERVAL_MS },
                    notice: None,
                },
                PollStep::TimedOut(timeout) => Step {
                    worker: self.with_phase(Phase::Failed),
                    action: Action::Fail(WorkerError::VisibilityTimeout(timeout)),
                    notice: None,
                },
            },
            Err(error) => Step {
                worker: self.with_phase(Phase::Failed),
                action: Action::Fail(WorkerError::ReadFailed(error)),
                notice: None,
            },
        }
    }

    fn on_kernel_state(
        self,
        visible_slot: u64,
        state_root: Result<Vec<u8>, ReadError>,
        rollup_height: Result<u64, ReadError>,
    ) -> (step: Step)
        ensures
            step == self.after_kernel_state(visible_slot, state_root, rollup_height),
    {
        let state_root = match state_root {
            Ok(state_root) => state_root,
            Err(error) => {
                return Step {
                    worker: self.with_phase(Phase::Failed),
                    action: Action::Fail(WorkerError::ReadFailed(error)),
                    notice: None,
                };
            },
        };
        match rollup_height {
            Ok(rollup_height) => Step {
                worker: self.with_phase(Phase::Submitting { visible_slot, rollup_height }),
                action: Action::Submit(
                    AssertionRequest::new(visible_slot, rollup_height, state_root),
                ),
                notice: None,
            },
            Err(error) => Step {
                worker: self.with_phase(Phase::Failed),
                action: Action::Fail(WorkerError::ReadFailed(error)),
                notice: None,
            },
        }
    }

    fn on_submission(
        self,
        visible_slot: u64,
        rollup_height: u64,
        result: Result<(), SubmissionError>,
    ) -> (step: Step)
        ensures
            step == self.after_submission(visible_slot, rollup_height, result),
    {
        let outcome = classify_submission(result, rollup_height);
        let notice = match &outcome {
            AssertionOutcome::SkippedStopHeight => Some(Notice::SequencerStopHeight),
            AssertionOutcome::SkippedTooLate { .. } => Some(
                Notice::AssertionTooLate { visible_slot, rollup_height },
            ),
            _ => None,
        };
        match outcome {
            AssertionOutcome::Fatal(cause) => Step {
                worker: self.with_phase(Phase::Failed),
                action: Action::Fail(
                    WorkerError::SubmissionFailed { visible_slot, rollup_height, cause },
                ),
                notice: None,
            },
            _ => Step {
                worker: Worker {
                    rollup_stop_height: self.rollup_stop_height,
                    last_visible_slot: visible_slot,
                    phase: Phase::AwaitingSlot { drain: None },
                },
                action: Action::SampleShutdown,
                notice,
            },
        }
    }

    /// Takes the event that the last action led to, and decides what comes
    /// next. An event that the worker is not waiting for is handed back, and
    /// the worker with it, unchanged.
    pub fn step(self, event: Event) -> (result: Result<Step, Rejected>)
        ensures
            match result {
                Ok(step) => self.next(event) == Some(step),
                Err(rejected) => self.next(event) is None && rejected.worker == self
                    && rejected.event == event,
            },
            result is Ok <==> self.awaits(event),
            self.wf() && result is Ok ==> result->Ok_0.worker.wf(),
    {
        match self.phase {
            Phase::AwaitingSlot { drain: None } => match event {
                Event::ShutdownSignal(requested) => Ok(self.on_shutdown_signal(requested)),
                other => Err(Rejected { worker: self, event: other }),
            },
            Phase::AwaitingSlot { drain: Some(drain) } => match event {
                Event::Stream(input) => Ok(self.on_stream(drain, input)),
                other => Err(Rejected { worker: self, event: other }),
            },
            Phase::PollingVisibility { poll } => match event {
                Event::VisibleSlot(read) => Ok(self.on_visible_slot(poll, read)),
                other => Err(Rejected { worker: self, event: other }),
            },
            Phase::ReadingKernelState { visible_slot } => match event {
                Event::KernelState { state_root, rollup_height } => Ok(
                    self.on_kernel_state(visible_slot, state_root, rollup_height),
                ),
                other => Err(Rejected { worker: self, event: other }),
            },
            Phase::Submitting { visible_slot, rollup_height } => match event {
                Event::Submitted(result) => Ok(
                    self.on_submission(visible_slot, rollup_height, result),
                ),
                other => Err(Rejected { worker: self, event: other }),
            },
            Phase::ShuttingDown => Err(Rejected { worker: self, event }),
            Phase::Failed => Err(Rejected { worker: self, event }),
        }
    }
}

fn notice_for_stream(drain: SlotDrain, input: Option<StreamEvent>) -> (notice: Option<Notice>)
    ensures
        notice == stream_notice(drain, input),
{
    match drain {
        SlotDrain::Awaiting { consecutive_errors } => match input {
            Some(StreamEvent::Error) => {
                let attempt = if consecutive_errors >= MAX_CONSECUTIVE_ERRORS - 1 {
                    MAX_CONSECUTIVE_ERRORS
                } else {
                    consecutive_errors + 1
                };
                Some(Notice::StreamError { attempt, max_attempts: MAX_CONSECUTIVE_ERRORS })
            },
            Some(StreamEvent::Slot(slot)) => Some(
                Notice::SlotReceived { slot_number: slot.number },
            ),
            _ => None,
        },
        SlotDrain::Coalescing { drained, .. } => match input {
            Some(StreamEvent::Slot(_)) => None,
            _ => if drained > 0 {
                Some(Notice::SlotsDrained { count: drained })
            } else {
                None
            },
        },
    }
}

} // verus!
