//! What holds of every run of the worker.

use crate::poller::VisibilityPoll;
use crate::stream::{SlotDrain, SlotNotification, StreamEvent, MAX_CONSECUTIVE_ERRORS};
use crate::submitter::{classified, SubmissionError};
use crate::worker::{Action, Event, Phase, StopReason, Worker, WorkerError};
use vstd::prelude::*;

verus! {

/// The event that announces a slot.
pub open spec fn slot_event(slot: SlotNotification) -> Event {
    Event::Stream(Some(StreamEvent::Slot(slot)))
}

/// The events that announce a run of slots.
pub open spec fn slot_events(slots: Seq<SlotNotification>) -> Seq<Event> {
    Seq::new(slots.len(), |i: int| slot_event(slots[i]))
}

/// The event that reports the state root and the rollup height, both read.
pub open spec fn kernel_event(state_root: Vec<u8>, rollup_height: u64) -> Event {
    Event::KernelState { state_root: Ok(state_root), rollup_height: Ok(rollup_height) }
}

/// A run of `count` stream errors.
pub open spec fn stream_errors(count: nat) -> Seq<Event> {
    Seq::new(count, |i: int| Event::Stream(Some(StreamEvent::Error)))
}

/// A count of slots as the worker keeps it: held at the largest `u64`.
pub open spec fn counted(slots: nat) -> u64 {
    if slots <= u64::MAX {
        slots as u64
    } else {
        u64::MAX
    }
}

/// The worker after one event.
pub proof fn lemma_after_one(worker: Worker, event: Event)
    ensures
        worker.after(seq![event]) == match worker.next(event) {
            Some(step) => step.worker,
            None => worker,
        },
{
    assert(seq![event].drop_last() =~= Seq::<Event>::empty());
    assert(worker.after(Seq::<Event>::empty()) == worker);
}

/// Two runs of events, one after the other, are one run.
pub proof fn lemma_after_concat(worker: Worker, first: Seq<Event>, then: Seq<Event>)
    ensures
        worker.after(first + then) == worker.after(first).after(then),
    decreases then.len(),
{
    if then.len() == 0 {
        assert(first + then =~= first);
    } else {
        lemma_after_concat(worker, first, then.drop_last());
        assert((first + then).drop_last() =~= first + then.drop_last());
    }
}

/// A step keeps the worker well-formed and its stop height as it was, and
/// never moves the cursor back.
pub proof fn law_cursor_never_goes_back(worker: Worker, event: Event)
    requires
        worker.wf(),
        worker.next(event) is Some,
    ensures
        worker.next(event).unwrap().worker.wf(),
        worker.next(event).unwrap().worker.rollup_stop_height == worker.rollup_stop_height,
        worker.next(event).unwrap().worker.last_visible_slot >= worker.last_visible_slot,
{
}

/// A run of events keeps the worker well-formed and its stop height as it
/// was, and never moves the cursor back.
pub proof fn law_runs_never_move_the_cursor_back(worker: Worker, events: Seq<Event>)
    requires
        worker.wf(),
    ensures
        worker.after(events).wf(),
        worker.after(events).rollup_stop_height == worker.rollup_stop_height,
        worker.after(events).last_visible_slot >= worker.last_visible_slot,
    decreases events.len(),
{
    if events.len() > 0 {
        law_runs_never_move_the_cursor_back(worker, events.drop_last());
        let before = worker.after(events.drop_last());
        if before.next(events.last()) is Some {
            law_cursor_never_goes_back(before, events.last());
        }
    }
}

/// The phases follow one another in the order of the cycle: from the wait
/// for a slot to the wait for visibility, from there to the reads, from there
/// to the submission, and from there to the top of the next cycle. The wait
/// for a slot is the only phase that leads to `ShuttingDown`.
pub proof fn law_phases_follow_the_cycle(worker: Worker, event: Event)
    requires
        worker.next(event) is Some,
    ensures
        match worker.phase {
            Phase::AwaitingSlot { .. } => {
                let phase = worker.next(event).unwrap().worker.phase;
                phase is AwaitingSlot || phase is PollingVisibility || phase is ShuttingDown
                    || phase is Failed
            },
            Phase::PollingVisibility { .. } => {
                let phase = worker.next(event).unwrap().worker.phase;
                phase is PollingVisibility || phase is ReadingKernelState || phase is Failed
            },
            Phase::ReadingKernelState { .. } => {
                let phase = worker.next(event).unwrap().worker.phase;
                phase is Submitting || phase is Failed
            },
            Phase::Submitting { .. } => {
                let phase = worker.next(event).unwrap().worker.phase;
                phase == (Phase::AwaitingSlot { drain: None }) || phase is Failed
            },
            Phase::ShuttingDown => false,
            Phase::Failed => false,
        },
        worker.next(event).unwrap().worker.phase is ShuttingDown <==> worker.next(
            event,
        ).unwrap().action is Stop,
        worker.next(event).unwrap().worker.phase is Failed <==> worker.next(
            event,
        ).unwrap().action is Fail,
{
}

/// A worker that has ended takes no event: `ShuttingDown` and `Failed` are
/// final.
pub proof fn law_ended_workers_stay_ended(worker: Worker, events: Seq<Event>)
    requires
        worker.ended(),
    ensures
        forall|event: Event| worker.next(event) is None,
        worker.after(events) == worker,
    decreases events.len(),
{
    if events.len() > 0 {
        law_ended_workers_stay_ended(worker, events.drop_last());
    }
}

/// The cursor moves only at the end of a cycle whose submission was not
/// fatal, and then to the visible slot that the cycle polled. A step that
/// fails leaves it where it was.
pub proof fn law_cursor_moves_with_completed_cycles(worker: Worker, event: Event)
    requires
        worker.next(event) is Some,
    ensures
        worker.next(event).unwrap().action is Fail ==> worker.next(event).unwrap().worker
            == worker.in_phase(Phase::Failed),
        worker.next(event).unwrap().worker.last_visible_slot != worker.last_visible_slot ==> {
            &&& worker.phase matches Phase::Submitting { visible_slot, rollup_height }
            &&& event matches Event::Submitted(answer)
            &&& !(classified(answer, rollup_height) is Fatal)
            &&& worker.next(event).unwrap().worker.last_visible_slot == visible_slot
        },
        worker.phase matches Phase::Submitting { visible_slot, rollup_height } ==> (
        event matches Event::Submitted(answer) ==> (!(classified(answer, rollup_height) is Fatal)
            ==> worker.next(event).unwrap().worker == Worker::starting(
            worker.rollup_stop_height,
            visible_slot,
        ))),
{
}

/// Assertions are submitted for visible slots that lie strictly above the
/// cursor, so each one asserts a later slot than the one before it.
pub proof fn law_assertions_move_forward(worker: Worker, event: Event)
    requires
        worker.wf(),
        worker.next(event) is Some,
    ensures
        worker.next(event).unwrap().action matches Action::Submit(request)
            ==> request.expected_visible_slot > worker.last_visible_slot && request.nonce == 0,
{
}

/// The slot that a drain ends with: the last of the queued slots, or the
/// first slot where none was queued behind it.
pub open spec fn last_drained(
    first: SlotNotification,
    queued: Seq<SlotNotification>,
) -> SlotNotification {
    if queued.len() == 0 {
        first
    } else {
        queued.last()
    }
}

/// The events of a drain that finds `queued` behind `first`.
pub open spec fn drained_events(
    first: SlotNotification,
    queued: Seq<SlotNotification>,
) -> Seq<Event> {
    seq![slot_event(first)] + slot_events(queued)
}

/// The events of the rest of a cycle: the stream has nothing more ready, the
/// API shows `visible_slot`, both kernel reads succeed, and the sequencer
/// answers.
pub open spec fn rest_of_cycle(
    visible_slot: u64,
    state_root: Vec<u8>,
    rollup_height: u64,
    answer: Result<(), SubmissionError>,
) -> Seq<Event> {
    seq![
        Event::Stream(None),
        Event::VisibleSlot(Ok(visible_slot)),
        kernel_event(state_root, rollup_height),
        Event::Submitted(answer),
    ]
}

/// After a first slot and any number of queued ones, the worker holds the
/// last of them, and has counted the others.
pub proof fn lemma_coalescing_keeps_last(
    worker: Worker,
    first: SlotNotification,
    queued: Seq<SlotNotification>,
)
    requires
        worker.phase == (Phase::AwaitingSlot { drain: Some(SlotDrain::fresh()) }),
    ensures
        worker.after(drained_events(first, queued)) == worker.in_phase(
            Phase::AwaitingSlot {
                drain: Some(
                    SlotDrain::Coalescing {
                        latest: last_drained(first, queued),
                        drained: counted(queued.len()),
                    },
                ),
            },
        ),
    decreases queued.len(),
{
    let events = drained_events(first, queued);
    if queued.len() == 0 {
        assert(events =~= seq![slot_event(first)]);
        lemma_after_one(worker, slot_event(first));
    } else {
        lemma_coalescing_keeps_last(worker, first, queued.drop_last());
        assert(events.drop_last() =~= drained_events(first, queued.drop_last()));
        assert(events.last() == slot_event(queued.last()));
    }
}

/// However many slots were queued behind the first, the worker reacts to the
/// last one alone: the cursor stays where it was while the stream is drained,
/// the wait for visibility is the wait for the last slot, and the cycle ends
/// with the cursor at the visible slot that was polled for it.
pub proof fn law_cursor_follows_last_drained_slot(
    worker: Worker,
    first: SlotNotification,
    queued: Seq<SlotNotification>,
    visible_slot: u64,
    state_root: Vec<u8>,
    rollup_height: u64,
    answer: Result<(), SubmissionError>,
)
    requires
        worker.phase == (Phase::AwaitingSlot { drain: Some(SlotDrain::fresh()) }),
        last_drained(first, queued).number < worker.rollup_stop_height,
        visible_slot > worker.last_visible_slot,
        !(classified(answer, rollup_height) is Fatal),
    ensures
        forall|taken: int|
            0 <= taken <= queued.len() ==> (#[trigger] worker.after(
                drained_events(first, queued.take(taken)),
            )).last_visible_slot == worker.last_visible_slot,
        worker.after(drained_events(first, queued) + seq![Event::Stream(None)]) == worker.in_phase(
            Phase::PollingVisibility {
                poll: VisibilityPoll::starting(
                    last_drained(first, queued).number,
                    worker.last_visible_slot,
                ),
            },
        ),
        worker.after(
            drained_events(first, queued) + rest_of_cycle(
                visible_slot,
                state_root,
                rollup_height,
                answer,
            ),
        ) == Worker::starting(worker.rollup_stop_height, visible_slot),
{
    assert forall|taken: int| 0 <= taken <= queued.len() implies (#[trigger] worker.after(
        drained_events(first, queued.take(taken)),
    )).last_visible_slot == worker.last_visible_slot by {
        lemma_coalescing_keeps_last(worker, first, queued.take(taken));
    }
    let drained = drained_events(first, queued);
    lemma_coalescing_keeps_last(worker, first, queued);
    let coalescing = worker.after(drained);
    let nothing_ready = seq![Event::Stream(None)];
    let visible = seq![Event::VisibleSlot(Ok(visible_slot))];
    let kernel = seq![kernel_event(state_root, rollup_height)];
    let answered = seq![Event::Submitted(answer)];
    lemma_after_one(coalescing, Event::Stream(None));
    let polling = coalescing.after(nothing_ready);
    lemma_after_one(polling, Event::VisibleSlot(Ok(visible_slot)));
    let reading = polling.after(visible);
    lemma_after_one(reading, kernel_event(state_root, rollup_height));
    let submitting = reading.after(kernel);
    lemma_after_one(submitting, Event::Submitted(answer));
    assert(rest_of_cycle(visible_slot, state_root, rollup_height, answer) =~= nothing_ready
        + visible + kernel + answered);
    lemma_after_concat(worker, drained, nothing_ready);
    lemma_after_concat(worker, drained, nothing_ready + visible + kernel + answered);
    lemma_after_concat(coalescing, nothing_ready + visible + kernel, answered);
    lemma_after_concat(coalescing, nothing_ready + visible, kernel);
    lemma_after_concat(coalescing, nothing_ready, visible);
}

/// A drain that ends with a slot at or past the stop height ends the run in
/// `ShuttingDown`, without an error and with the cursor where it was,
/// whatever the shutdown signal said at the top of the cycle.
pub proof fn law_stop_height_shuts_down(
    worker: Worker,
    requested: bool,
    first: SlotNotification,
    queued: Seq<SlotNotification>,
)
    requires
        worker.phase == (Phase::AwaitingSlot { drain: None }),
        last_drained(first, queued).number >= worker.rollup_stop_height,
    ensures
        worker.after(
            seq![Event::ShutdownSignal(requested)] + drained_events(first, queued) + seq![
                Event::Stream(None),
            ],
        ) == worker.in_phase(Phase::ShuttingDown),
        requested ==> worker.next(Event::ShutdownSignal(requested)).unwrap().action
            == Action::Stop(StopReason::ShutdownRequested),
        !requested ==> worker.after(
            seq![Event::ShutdownSignal(requested)] + drained_events(first, queued),
        ).next(Event::Stream(None)).unwrap().action == Action::Stop(
            StopReason::StopHeightReached { slot_number: last_drained(first, queued).number },
        ),
{
    let signal = seq![Event::ShutdownSignal(requested)];
    let drained = drained_events(first, queued);
    let nothing_ready = seq![Event::Stream(None)];
    lemma_after_one(worker, Event::ShutdownSignal(requested));
    let sampled = worker.after(signal);
    lemma_after_concat(worker, signal, drained);
    lemma_after_concat(worker, signal + drained, nothing_ready);
    if requested {
        law_ended_workers_stay_ended(sampled, drained);
        law_ended_workers_stay_ended(sampled, nothing_ready);
    } else {
        lemma_coalescing_keeps_last(sampled, first, queued);
        lemma_after_one(sampled.after(drained), Event::Stream(None));
    }
}

/// Stream errors in a row, fewer than five, leave the worker waiting for the
/// stream with its cursor where it was.
pub proof fn law_few_stream_errors_are_retried(worker: Worker, errors: nat)
    requires
        worker.phase == (Phase::AwaitingSlot { drain: Some(SlotDrain::fresh()) }),
        errors < MAX_CONSECUTIVE_ERRORS,
    ensures
        worker.after(stream_errors(errors)) == worker.in_phase(
            Phase::AwaitingSlot {
                drain: Some(SlotDrain::Awaiting { consecutive_errors: errors as u32 }),
            },
        ),
    decreases errors,
{
    if errors > 0 {
        law_few_stream_errors_are_retried(worker, (errors - 1) as nat);
        assert(stream_errors(errors).drop_last() =~= stream_errors((errors - 1) as nat));
    }
}

/// The fifth stream error in a row ends the run with an error, and the cursor
/// stays where it was.
pub proof fn law_fifth_stream_error_is_fatal(worker: Worker)
    requires
        worker.phase == (Phase::AwaitingSlot { drain: Some(SlotDrain::fresh()) }),
    ensures
        worker.after(stream_errors(MAX_CONSECUTIVE_ERRORS as nat)) == worker.in_phase(
            Phase::Failed,
        ),
        worker.after(stream_errors((MAX_CONSECUTIVE_ERRORS - 1) as nat)).next(
            Event::Stream(Some(StreamEvent::Error)),
        ).unwrap().action == Action::Fail(
            WorkerError::TooManyStreamErrors { consecutive_errors: MAX_CONSECUTIVE_ERRORS },
        ),
{
    law_few_stream_errors_are_retried(worker, (MAX_CONSECUTIVE_ERRORS - 1) as nat);
    assert(stream_errors(MAX_CONSECUTIVE_ERRORS as nat).drop_last() =~= stream_errors(
        (MAX_CONSECUTIVE_ERRORS - 1) as nat,
    ));
}

} // verus!
