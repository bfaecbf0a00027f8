use std::cell::RefCell;
use std::rc::Rc;

use zero_gesture::input::{BindingSetId, ContextView, MouseEvent, Point, TargetToken, TriggerButton};
use zero_gesture::tap::{
    capture_callback_event, classify_run_loop_result, executor_marker, prepare_marked_state, process_input_step, ContextRoute, event_mask, event_tap_spec,
    listen_only_event_tap_spec, normalize_event, scroll_steps, EventTapSpec, KpiSnapshot,
    NormalizedInput, RawInput, RunLoopDisposition, TapState, EVENT_LEFT_MOUSE_DOWN,
    EVENT_LEFT_MOUSE_DRAGGED, EVENT_LEFT_MOUSE_UP, EVENT_MOUSE_MOVED, EVENT_OTHER_MOUSE_DOWN,
    EVENT_OTHER_MOUSE_DRAGGED, EVENT_OTHER_MOUSE_UP, EVENT_QUEUE_CAPACITY,
    EVENT_RIGHT_MOUSE_DOWN, EVENT_RIGHT_MOUSE_DRAGGED, EVENT_RIGHT_MOUSE_UP, EVENT_SCROLL_WHEEL,
    MIDDLE_MOUSE_BUTTON, RUN_LOOP_FINISHED, RUN_LOOP_HANDLED_SOURCE, RUN_LOOP_STOPPED,
    RUN_LOOP_TIMED_OUT,
};

/// A Core Graphics event as the callback reads it, its location rounded to
/// whole pixels the way the tap callback rounds it.
fn raw(event_type: u32, button: i64, scroll: i64, x: f64, y: f64, timestamp_ns: u64) -> RawInput {
    RawInput {
        event_type,
        button,
        scroll,
        x: x.round() as i32,
        y: y.round() as i32,
        timestamp_ns,
    }
}

fn callback_raw(event_type: u32) -> RawInput {
    raw(event_type, 0, 0, 1.0, 2.0, 3)
}

fn normalizes_mouse_input() {
    let mut state = TapState::new();
    state.capture_raw(raw(EVENT_RIGHT_MOUSE_DOWN, 0, 0, 17.4, -8.6, 41));
    state.capture_raw(raw(EVENT_MOUSE_MOVED, 0, 0, 5.6, 9.4, 42));
    state.capture_raw(raw(EVENT_SCROLL_WHEEL, 0, -3, -2.6, 11.7, 43));

    assert_eq!(
        state.pop(),
        Some(NormalizedInput {
            event: MouseEvent::ButtonDown(TriggerButton::Right),
            point: Point::new(17, -9),
            timestamp_ns: 41,
        })
    );
    assert_eq!(
        state.pop(),
        Some(NormalizedInput {
            event: MouseEvent::MouseMove,
            point: Point::new(6, 9),
            timestamp_ns: 42,
        })
    );
    assert_eq!(
        state.pop(),
        Some(NormalizedInput {
            event: MouseEvent::WheelDown(3),
            point: Point::new(-3, 12),
            timestamp_ns: 43,
        })
    );
}

fn self_tagged_event_is_filtered() {
    let mut state = TapState::with_marker(41);
    let mut raw_read = false;
    let result = capture_callback_event(&mut state, 41, || {
        raw_read = true;
        callback_raw(EVENT_MOUSE_MOVED)
    });
    assert!(result.is_none());
    assert!(!raw_read);
    assert!(state.pop().is_none());
    assert_eq!(state.snapshot().received, 0);
}

fn foreign_tagged_event_is_queued() {
    let mut state = TapState::with_marker(41);
    let mut raw_read = false;
    capture_callback_event(&mut state, 42, || {
        raw_read = true;
        callback_raw(EVENT_MOUSE_MOVED)
    });
    assert!(raw_read);
    assert_eq!(
        state.pop(),
        Some(NormalizedInput {
            event: MouseEvent::MouseMove,
            point: Point::new(1, 2),
            timestamp_ns: 3,
        })
    );
}

fn overload_drops_new_input_in_fifo_order() {
    let mut state = TapState::new();
    for timestamp_ns in 0..EVENT_QUEUE_CAPACITY as u64 {
        state.capture_raw(raw(
            EVENT_MOUSE_MOVED,
            0,
            0,
            timestamp_ns as f64,
            -(timestamp_ns as f64),
            timestamp_ns,
        ));
    }
    state.capture_raw(raw(EVENT_MOUSE_MOVED, 0, 0, 99.0, 99.0, 99));

    for expected in 0..EVENT_QUEUE_CAPACITY as u64 {
        let input = state.pop().unwrap();
        assert_eq!(input.point, Point::new(expected as i32, -(expected as i32)));
        assert_eq!(input.timestamp_ns, expected);
    }
    assert!(state.pop().is_none());
    assert_eq!(
        state.snapshot(),
        KpiSnapshot {
            received: 65,
            enqueued: 64,
            dropped: 1,
            processed: 0,
            disabled: 0,
        }
    );
}

fn disable_notifications_coalesce() {
    let mut state = TapState::new();
    state.note_disabled();
    state.note_disabled();

    assert!(state.take_reenable_request());
    assert!(!state.take_reenable_request());
    assert_eq!(state.snapshot().disabled, 2);
}

fn consumer_receives_inputs_in_callback_order() {
    let mut state = TapState::new();
    let raw_inputs = [
        raw(EVENT_LEFT_MOUSE_DOWN, 0, 0, 1.0, 2.0, 10),
        raw(EVENT_MOUSE_MOVED, 0, 0, 3.0, 4.0, 20),
        raw(EVENT_SCROLL_WHEEL, 0, 2, 5.0, 6.0, 30),
    ];
    for input in raw_inputs {
        state.capture_raw(input);
    }

    assert_eq!(
        state.pop(),
        Some(NormalizedInput {
            event: MouseEvent::ButtonDown(TriggerButton::Left),
            point: Point::new(1, 2),
            timestamp_ns: 10,
        })
    );
    assert_eq!(
        state.pop(),
        Some(NormalizedInput {
            event: MouseEvent::MouseMove,
            point: Point::new(3, 4),
            timestamp_ns: 20,
        })
    );
    assert_eq!(
        state.pop(),
        Some(NormalizedInput {
            event: MouseEvent::WheelUp(2),
            point: Point::new(5, 6),
            timestamp_ns: 30,
        })
    );
    assert!(state.pop().is_none());
}

fn event_mapping_matches_the_portable_boundary() {
    assert_eq!(
        normalize_event(EVENT_LEFT_MOUSE_DOWN, 0, 0),
        Some(MouseEvent::ButtonDown(TriggerButton::Left))
    );
    assert_eq!(
        normalize_event(EVENT_OTHER_MOUSE_UP, MIDDLE_MOUSE_BUTTON, 0),
        Some(MouseEvent::ButtonUp(TriggerButton::Middle))
    );
    assert_eq!(
        normalize_event(EVENT_SCROLL_WHEEL, 0, -(u16::MAX as i64) - 1),
        Some(MouseEvent::WheelDown(u16::MAX))
    );
    assert_eq!(
        normalize_event(EVENT_OTHER_MOUSE_DOWN, 4, 0),
        Some(MouseEvent::Other)
    );
}

fn mouse_mask() -> u64 {
    event_mask(EVENT_LEFT_MOUSE_DOWN)
        | event_mask(EVENT_LEFT_MOUSE_UP)
        | event_mask(EVENT_RIGHT_MOUSE_DOWN)
        | event_mask(EVENT_RIGHT_MOUSE_UP)
        | event_mask(EVENT_MOUSE_MOVED)
        | event_mask(EVENT_LEFT_MOUSE_DRAGGED)
        | event_mask(EVENT_RIGHT_MOUSE_DRAGGED)
        | event_mask(EVENT_SCROLL_WHEEL)
        | event_mask(EVENT_OTHER_MOUSE_DOWN)
        | event_mask(EVENT_OTHER_MOUSE_UP)
        | event_mask(EVENT_OTHER_MOUSE_DRAGGED)
}

#[test]
fn macos_callback_core_normalizes_mouse_input_without_allocating() {
    normalizes_mouse_input();
}

#[test]
fn mod_callback_core_normalizes_mouse_input_without_allocating() {
    normalizes_mouse_input();
}

#[test]
fn macos_self_tagged_callback_event_is_filtered_before_input_queue() {
    self_tagged_event_is_filtered();
}

#[test]
fn mod_self_tagged_callback_event_is_filtered_before_input_queue() {
    self_tagged_event_is_filtered();
}

#[test]
fn macos_foreign_tagged_callback_event_reaches_input_queue() {
    foreign_tagged_event_is_queued();
}

#[test]
fn mod_foreign_tagged_callback_event_reaches_input_queue() {
    foreign_tagged_event_is_queued();
}

#[test]
fn macos_callback_queue_overload_drops_new_input_and_preserves_fifo_order() {
    overload_drops_new_input_in_fifo_order();
}

#[test]
fn mod_callback_queue_overload_drops_new_input_and_preserves_fifo_order() {
    overload_drops_new_input_in_fifo_order();
}

#[test]
fn callback_capture_stops_at_the_queue_before_context_resolution() {
    let mut state = TapState::new();
    state.capture_raw(raw(EVENT_RIGHT_MOUSE_DOWN, 0, 0, 10.0, 20.0, 30_000_000));

    assert_eq!(state.snapshot().processed, 0);
    let drained = state.drain();
    assert_eq!(
        drained.last().copied(),
        Some(NormalizedInput {
            event: MouseEvent::ButtonDown(TriggerButton::Right),
            point: Point::new(10, 20),
            timestamp_ns: 30_000_000,
        })
    );
    assert_eq!(state.snapshot().processed, 1);
}

#[test]
fn macos_tap_disable_notifications_coalesce_for_worker_side_reenable() {
    disable_notifications_coalesce();
}

#[test]
fn mod_tap_disable_notifications_coalesce_for_worker_side_reenable() {
    disable_notifications_coalesce();
}

#[test]
fn macos_spsc_consumer_receives_distinct_inputs_in_callback_order() {
    consumer_receives_inputs_in_callback_order();
}

#[test]
fn mod_spsc_consumer_receives_distinct_inputs_in_callback_order() {
    consumer_receives_inputs_in_callback_order();
}

#[test]
fn macos_macos_event_mapping_matches_the_portable_mouse_boundary() {
    event_mapping_matches_the_portable_boundary();
}

#[test]
fn mod_macos_event_mapping_matches_the_portable_mouse_boundary() {
    event_mapping_matches_the_portable_boundary();
}

#[test]
fn event_tap_spec_is_exactly_listen_only_mouse_observation() {
    assert_eq!(
        listen_only_event_tap_spec(),
        EventTapSpec {
            options: 1,
            mask: mouse_mask(),
        }
    );
}

#[test]
fn event_tap_spec_is_suppress_capable_with_exact_mouse_mask() {
    assert_eq!(
        event_tap_spec(),
        EventTapSpec {
            options: 0,
            mask: mouse_mask(),
        }
    );
}

#[test]
fn event_mask_is_one_bit_per_event_type() {
    assert_eq!(event_mask(EVENT_LEFT_MOUSE_DOWN), 1 << 1);
    assert_eq!(event_mask(EVENT_SCROLL_WHEEL), 1 << 22);
    assert_eq!(mouse_mask(), 0x0E40_00FE);
}

#[test]
fn scroll_steps_saturate_and_keep_magnitude() {
    assert_eq!(scroll_steps(0), 0);
    assert_eq!(scroll_steps(3), 3);
    assert_eq!(scroll_steps(-3), 3);
    assert_eq!(scroll_steps(i64::MIN), u16::MAX);
    assert_eq!(normalize_event(EVENT_SCROLL_WHEEL, 0, 0), Some(MouseEvent::Other));
    assert_eq!(
        normalize_event(EVENT_RIGHT_MOUSE_UP, 0, 0),
        Some(MouseEvent::ButtonUp(TriggerButton::Right))
    );
    assert_eq!(normalize_event(EVENT_LEFT_MOUSE_DRAGGED, 0, 0), Some(MouseEvent::MouseMove));
    assert_eq!(normalize_event(100, 0, 0), None);
}

#[test]
fn run_loop_results_are_classified() {
    assert_eq!(classify_run_loop_result(RUN_LOOP_TIMED_OUT), RunLoopDisposition::Continue);
    assert_eq!(classify_run_loop_result(RUN_LOOP_HANDLED_SOURCE), RunLoopDisposition::Degrade);
    assert_eq!(classify_run_loop_result(RUN_LOOP_FINISHED), RunLoopDisposition::Degrade);
    assert_eq!(classify_run_loop_result(RUN_LOOP_STOPPED), RunLoopDisposition::Degrade);
}

#[test]
fn drain_counts_every_input_as_processed() {
    let mut state = TapState::new();
    state.capture_raw(callback_raw(EVENT_MOUSE_MOVED));
    state.capture_raw(callback_raw(EVENT_LEFT_MOUSE_UP));
    assert_eq!(state.drain().len(), 2);
    assert!(state.drain().is_empty());
    assert_eq!(state.snapshot().processed, 2);
}

#[derive(Debug, Clone, Copy, PartialEq, Eq)]
enum InputStepCall {
    Route,
    Needed(bool),
    Observe,
    Latest,
    Consume(bool),
}

#[test]
fn production_input_step_orders_and_gates_context_before_consumer() {
    let cases = [
        (
            ContextRoute::Observe,
            vec![
                InputStepCall::Route,
                InputStepCall::Needed(true),
                InputStepCall::Observe,
                InputStepCall::Latest,
                InputStepCall::Consume(true),
            ],
        ),
        (
            ContextRoute::Cached,
            vec![
                InputStepCall::Route,
                InputStepCall::Needed(true),
                InputStepCall::Latest,
                InputStepCall::Consume(true),
            ],
        ),
        (
            ContextRoute::Inactive,
            vec![
                InputStepCall::Route,
                InputStepCall::Needed(false),
                InputStepCall::Consume(false),
            ],
        ),
    ];

    for (route, expected) in cases {
        let calls = Rc::new(RefCell::new(Vec::new()));
        let mut state = TapState::new();
        state.capture_raw(raw(EVENT_MOUSE_MOVED, 0, 0, 4.0, 5.0, 6_000_000));
        for input in state.drain() {
            let tick = process_input_step(
                input,
                |_| {
                    calls.borrow_mut().push(InputStepCall::Route);
                    route
                },
                |needed| calls.borrow_mut().push(InputStepCall::Needed(needed)),
                |_, _, _| calls.borrow_mut().push(InputStepCall::Observe),
                |point, tick| {
                    calls.borrow_mut().push(InputStepCall::Latest);
                    Some(ContextView {
                        generation: 1,
                        binding_set: BindingSetId::from_index(0).unwrap(),
                        target: TargetToken(1),
                        point,
                        updated_tick: tick,
                    })
                },
                |_, context, _| {
                    calls
                        .borrow_mut()
                        .push(InputStepCall::Consume(context.is_some()))
                },
            );
            assert_eq!(tick, 6);
        }

        assert_eq!(*calls.borrow(), expected);
    }
}

#[test]
fn mod_process_marker_is_copied_before_tap_install_and_executor_spawn() {
    let calls = Rc::new(RefCell::new(Vec::new()));
    let tap_calls = Rc::clone(&calls);
    let (state, ()) = prepare_marked_state(41, move |state: &TapState| {
        tap_calls.borrow_mut().push(("tap", executor_marker(state)));
    });
    calls
        .borrow_mut()
        .push(("executor", executor_marker(&state)));

    assert_eq!(*calls.borrow(), [("tap", 41), ("executor", 41)]);
}
