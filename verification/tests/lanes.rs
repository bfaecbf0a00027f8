use zero_gesture::input::{
    pack_point, unpack_point, ActionId, BindingSetId, ConfigGeneration, ContextView, Point,
    SessionId, TargetToken, TriggerButton,
};
use zero_gesture::lane::{
    reservation, ActionWork, FixedLane, RenderLane, RenderWork, Reservation, ACTION_CAPACITY,
    RENDER_CAPACITY,
};
use zero_gesture::owner::{CallbackFacts, InputEffect, InputOwnerState, RuntimeSource};

#[test]
fn fixed_lane_is_first_in_first_out_and_bounded() {
    let mut lane: FixedLane<u32, 3> = FixedLane::new();
    assert_eq!(lane.free(), 3);
    assert!(lane.push(1));
    assert!(lane.push(2));
    assert!(lane.push(3));
    assert!(!lane.push(4));
    assert_eq!(lane.len(), 3);
    assert_eq!(lane.pop(), Some(1));
    assert!(lane.push(5));
    assert_eq!(lane.pop(), Some(2));
    assert_eq!(lane.pop(), Some(3));
    assert_eq!(lane.pop(), Some(5));
    assert_eq!(lane.pop(), None);
    assert_eq!(lane.free(), 3);
}

#[test]
fn render_lane_keeps_the_end_slot_while_a_session_is_open() {
    let session = SessionId(1);
    let mut lane = RenderLane::new();
    assert!(lane.can_start());
    lane.start(RenderWork::Start {
        session,
        generation: ConfigGeneration(1),
    });
    assert!(!lane.can_start());
    for x in 0..RENDER_CAPACITY as i32 {
        lane.lossy(RenderWork::Point {
            session,
            point: Point::new(x, 0),
        });
    }
    lane.end(RenderWork::End { session });
    let mut drained = Vec::new();
    while let Some(work) = lane.pop() {
        drained.push(work);
    }
    assert_eq!(drained.len(), RENDER_CAPACITY);
    assert_eq!(
        drained.first(),
        Some(&RenderWork::Start {
            session,
            generation: ConfigGeneration(1)
        })
    );
    assert_eq!(drained.last(), Some(&RenderWork::End { session }));
    assert!(lane.can_start());
}

#[test]
fn reservation_reports_capacity() {
    assert_eq!(reservation(true), Reservation::Reserved);
    assert_eq!(reservation(false), Reservation::CapacityExhausted);
}

#[test]
fn packed_points_unpack_to_the_same_point() {
    for point in [
        Point::new(0, 0),
        Point::new(-10, 20),
        Point::new(i32::MIN, i32::MAX),
        Point::new(1_001, -1_001),
    ] {
        assert_eq!(unpack_point(pack_point(point)), point);
    }
    assert_eq!(pack_point(Point::new(1, 2)), (1_u64 << 32) | 2);
    assert_eq!(pack_point(Point::new(-1, 0)), 0xFFFF_FFFF_0000_0000);
}

#[test]
fn binding_set_ids_fit_thirty_two_bits() {
    assert_eq!(BindingSetId::from_index(3), Some(BindingSetId(3)));
    assert_eq!(BindingSetId(7).index(), 7);
    if usize::BITS > 32 {
        assert_eq!(BindingSetId::from_index(1_usize << 32), None);
    }
}

fn context(generation: u64, point: Point, tick: u32) -> ContextView {
    ContextView {
        generation,
        binding_set: BindingSetId(0),
        target: TargetToken(17),
        point,
        updated_tick: tick,
    }
}

#[test]
fn start_facts_need_a_fresh_context_of_the_current_generation() {
    let point = Point::new(0, 0);
    let mut owner = InputOwnerState::new();
    assert_eq!(owner.start_facts(point, 1), CallbackFacts::MissingContext);
    owner.set_context(Some(context(1, point, 1)));
    assert_eq!(owner.start_facts(point, 1), CallbackFacts::MissingContext);
    owner.set_generation(Some(ConfigGeneration(2)));
    assert_eq!(owner.start_facts(point, 1), CallbackFacts::WrongGeneration);
    owner.set_generation(Some(ConfigGeneration(1)));
    assert_eq!(owner.start_facts(Point::new(1, 0), 1), CallbackFacts::StaleContext);
    assert_eq!(owner.start_facts(point, 102), CallbackFacts::StaleContext);
    assert_eq!(
        owner.start_facts(point, 101),
        CallbackFacts::Start {
            generation: ConfigGeneration(1),
            binding_set: BindingSetId(0),
            target: TargetToken(17),
            activation: Reservation::Reserved,
            render_lifecycle: Reservation::Reserved,
            replay: Reservation::Reserved,
        }
    );
}

#[test]
fn activation_and_action_lane_preserve_fifo() {
    let session = SessionId(4);
    let mut owner = InputOwnerState::new();
    owner.apply_effects(&[
        InputEffect::ActivateTarget {
            session,
            target: TargetToken(17),
        },
        InputEffect::RenderStart {
            session,
            generation: ConfigGeneration(1),
        },
        InputEffect::DispatchAction {
            session,
            generation: ConfigGeneration(1),
            action: ActionId(3),
            repeat: 1,
        },
    ]);
    assert_eq!(owner.take_wakeups(), (true, true));
    assert_eq!(owner.take_wakeups(), (false, false));
    assert_eq!(
        owner.pop_action(),
        Some(ActionWork::Activate {
            session,
            target: TargetToken(17)
        })
    );
    assert!(matches!(
        owner.pop_action(),
        Some(ActionWork::Dispatch { session: queued, .. }) if queued == session
    ));
    assert_eq!(owner.pop_action(), None);
    assert_eq!(
        owner.pop_render(),
        Some(RenderWork::Start {
            session,
            generation: ConfigGeneration(1)
        })
    );
}

#[test]
fn held_replay_slot_limits_action_delivery() {
    let session = SessionId(9);
    let mut owner = InputOwnerState::new();
    owner.apply_effect(InputEffect::ActivateTarget {
        session,
        target: TargetToken(1),
    });
    for action in 0..(ACTION_CAPACITY - 2) as u32 {
        owner.apply_effect(InputEffect::DispatchAction {
            session,
            generation: ConfigGeneration(1),
            action: ActionId(action),
            repeat: 1,
        });
    }
    assert_eq!(
        owner.continue_facts(),
        CallbackFacts::Continue {
            action_delivery: Reservation::CapacityExhausted,
            completion_replay: Reservation::Reserved,
        }
    );
    owner.apply_effect(InputEffect::ReplayTrigger {
        session,
        trigger: TriggerButton::Right,
        down_at: Point::new(10, 20),
        up_at: Point::new(30, 40),
    });
    owner.pop_action();
    assert_eq!(
        owner.continue_facts(),
        CallbackFacts::Continue {
            action_delivery: Reservation::Reserved,
            completion_replay: Reservation::CapacityExhausted,
        }
    );
}

#[test]
fn renderer_point_overload_drops_without_delaying_action_delivery() {
    let session = SessionId(2);
    let mut owner = InputOwnerState::new();
    owner.apply_effect(InputEffect::RenderStart {
        session,
        generation: ConfigGeneration(1),
    });
    for tick in 2..=200 {
        owner.apply_effect(InputEffect::RenderPoint {
            session,
            point: Point::new(0, -tick),
        });
    }
    owner.apply_effect(InputEffect::DispatchAction {
        session,
        generation: ConfigGeneration(1),
        action: ActionId(0),
        repeat: 1,
    });
    owner.apply_effect(InputEffect::RenderEnd { session });
    assert!(matches!(
        owner.pop_action(),
        Some(ActionWork::Dispatch { session: queued, .. }) if queued == session
    ));
    let mut renders = 0;
    let mut last = None;
    while let Some(work) = owner.pop_render() {
        renders += 1;
        last = Some(work);
    }
    assert_eq!(renders, RENDER_CAPACITY);
    assert_eq!(last, Some(RenderWork::End { session }));
}

#[test]
fn shutdown_clears_all_queued_work() {
    let session = SessionId(3);
    let mut owner = InputOwnerState::new();
    owner.apply_effect(InputEffect::ActivateTarget {
        session,
        target: TargetToken(1),
    });
    owner.clear();
    owner.clear();
    assert_eq!(owner.pop_action(), None);
    assert_eq!(owner.pop_render(), None);
    assert_eq!(owner.take_wakeups(), (false, false));
    assert_eq!(
        owner.continue_facts(),
        CallbackFacts::Continue {
            action_delivery: Reservation::Reserved,
            completion_replay: Reservation::CapacityExhausted,
        }
    );
}

#[test]
fn callback_facts_pass_without_configuration_and_continue_a_session() {
    let point = Point::new(0, 0);
    let mut owner = InputOwnerState::new();
    owner.set_generation(Some(ConfigGeneration(1)));
    owner.set_context(Some(context(1, point, 1)));
    assert_eq!(owner.callback_facts(None, None, point, 1), None);
    assert_eq!(owner.callback_facts(None, Some(false), point, 1), None);
    assert!(matches!(
        owner.callback_facts(None, Some(true), point, 1),
        Some(CallbackFacts::Start { .. })
    ));
    assert_eq!(
        owner.callback_facts(Some(ConfigGeneration(1)), Some(false), point, 1),
        Some(CallbackFacts::Continue {
            action_delivery: Reservation::Reserved,
            completion_replay: Reservation::CapacityExhausted,
        })
    );
}

#[test]
fn native_owner_pins_generation_until_the_session_ends() {
    let session = SessionId(5);
    let mut owner = InputOwnerState::new();
    owner.set_generation(Some(ConfigGeneration(1)));
    owner.finish_decision(
        &[InputEffect::ActivateTarget {
            session,
            target: TargetToken(1),
        }],
        Some(ConfigGeneration(1)),
        false,
    );
    owner.set_generation(Some(ConfigGeneration(2)));
    assert_eq!(
        owner.runtime_source(ConfigGeneration(1), Some(ConfigGeneration(1))),
        Some(RuntimeSource::Session)
    );
    assert_eq!(
        owner.runtime_source(ConfigGeneration(2), Some(ConfigGeneration(1))),
        Some(RuntimeSource::Current)
    );
    assert_eq!(owner.runtime_source(ConfigGeneration(3), None), None);
    assert_eq!(
        owner.continue_facts(),
        CallbackFacts::Continue {
            action_delivery: Reservation::Reserved,
            completion_replay: Reservation::Reserved,
        }
    );
    owner.finish_decision(&[], None, false);
    assert_eq!(owner.runtime_source(ConfigGeneration(1), Some(ConfigGeneration(1))), None);
    assert_eq!(
        owner.continue_facts(),
        CallbackFacts::Continue {
            action_delivery: Reservation::Reserved,
            completion_replay: Reservation::CapacityExhausted,
        }
    );
}

#[test]
fn bypass_releases_the_held_replay_slot() {
    let mut owner = InputOwnerState::new();
    owner.finish_decision(
        &[InputEffect::ActivateTarget {
            session: SessionId(6),
            target: TargetToken(2),
        }],
        Some(ConfigGeneration(1)),
        true,
    );
    assert_eq!(
        owner.continue_facts(),
        CallbackFacts::Continue {
            action_delivery: Reservation::Reserved,
            completion_replay: Reservation::CapacityExhausted,
        }
    );
}
