use state_consistency::stream::{
    DrainStep, SlotDrain, SlotNotification, StreamEvent, MAX_CONSECUTIVE_ERRORS,
};

fn slot(number: u64) -> Option<StreamEvent> {
    Some(StreamEvent::Slot(SlotNotification { number }))
}

fn feed(inputs: &[Option<StreamEvent>]) -> DrainStep {
    let mut step = DrainStep::Continue(SlotDrain::new());
    for input in inputs {
        step = match step {
            DrainStep::Continue(drain) => drain.step(*input),
            ended => ended,
        };
    }
    step
}

#[test]
fn consumer_starts_without_errors() {
    assert_eq!(SlotDrain::new(), SlotDrain::Awaiting { consecutive_errors: 0 });
    assert!(!SlotDrain::new().is_coalescing());
    assert_eq!(MAX_CONSECUTIVE_ERRORS, 5);
}

#[test]
fn single_slot_is_returned_with_nothing_drained() {
    assert_eq!(
        feed(&[slot(10), None]),
        DrainStep::Done { latest: Some(SlotNotification { number: 10 }), drained: 0 }
    );
}

#[test]
fn first_slot_turns_to_coalescing() {
    let step = SlotDrain::new().step(slot(3));
    assert_eq!(
        step,
        DrainStep::Continue(SlotDrain::Coalescing {
            latest: SlotNotification { number: 3 },
            drained: 0
        })
    );
    match step {
        DrainStep::Continue(drain) => assert!(drain.is_coalescing()),
        _ => panic!("the consumer ended on its first slot"),
    }
}

#[test]
fn queued_slots_are_passed_over_and_counted() {
    assert_eq!(
        feed(&[slot(10), slot(11), slot(12), slot(15), None]),
        DrainStep::Done { latest: Some(SlotNotification { number: 15 }), drained: 3 }
    );
}

#[test]
fn the_last_queued_slot_is_kept_even_if_lower() {
    assert_eq!(
        feed(&[slot(10), slot(10), slot(9), None]),
        DrainStep::Done { latest: Some(SlotNotification { number: 9 }), drained: 2 }
    );
}

#[test]
fn error_or_close_while_coalescing_ends_the_drain() {
    assert_eq!(
        feed(&[slot(10), slot(11), Some(StreamEvent::Error)]),
        DrainStep::Done { latest: Some(SlotNotification { number: 11 }), drained: 1 }
    );
    assert_eq!(
        feed(&[slot(10), Some(StreamEvent::Closed)]),
        DrainStep::Done { latest: Some(SlotNotification { number: 10 }), drained: 0 }
    );
}

#[test]
fn closed_stream_gives_no_slot() {
    assert_eq!(
        feed(&[Some(StreamEvent::Closed)]),
        DrainStep::Done { latest: None, drained: 0 }
    );
    assert_eq!(
        feed(&[Some(StreamEvent::Error), Some(StreamEvent::Closed)]),
        DrainStep::Done { latest: None, drained: 0 }
    );
}

#[test]
fn four_errors_are_retried() {
    let errors = [Some(StreamEvent::Error); 4];
    assert_eq!(
        feed(&errors),
        DrainStep::Continue(SlotDrain::Awaiting { consecutive_errors: 4 })
    );
    let mut then_slot = errors.to_vec();
    then_slot.push(slot(7));
    then_slot.push(None);
    assert_eq!(
        feed(&then_slot),
        DrainStep::Done { latest: Some(SlotNotification { number: 7 }), drained: 0 }
    );
}

#[test]
fn fifth_error_in_a_row_fails() {
    let errors = [Some(StreamEvent::Error); 5];
    assert_eq!(feed(&errors), DrainStep::Failed { consecutive_errors: 5 });
    for count in 1..5u32 {
        let errors = vec![Some(StreamEvent::Error); count as usize];
        assert_eq!(
            feed(&errors),
            DrainStep::Continue(SlotDrain::Awaiting { consecutive_errors: count })
        );
    }
}

#[test]
fn nothing_ready_while_waiting_changes_nothing() {
    let waiting = SlotDrain::Awaiting { consecutive_errors: 2 };
    assert_eq!(waiting.step(None), DrainStep::Continue(waiting));
}

#[test]
fn error_count_near_the_limit_of_its_type_fails() {
    let waiting = SlotDrain::Awaiting { consecutive_errors: u32::MAX };
    assert_eq!(
        waiting.step(Some(StreamEvent::Error)),
        DrainStep::Failed { consecutive_errors: 5 }
    );
}

#[test]
fn drained_count_stays_at_its_largest() {
    let full = SlotDrain::Coalescing { latest: SlotNotification { number: 1 }, drained: u64::MAX };
    assert_eq!(
        full.step(slot(2)),
        DrainStep::Continue(SlotDrain::Coalescing {
            latest: SlotNotification { number: 2 },
            drained: u64::MAX
        })
    );
}
