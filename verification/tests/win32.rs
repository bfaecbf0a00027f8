use crossbeam_channel::{bounded, TrySendError};
use zero_gesture::context::{context_resolution_is_fresh, ContextMailbox};
use zero_gesture::input::{BindingSetId, ContextView, MouseEvent, Point, TargetToken, TriggerButton};
use zero_gesture::win32::{
    context_from_sample, context_publish_due, context_signature, screen_to_absolute,
    to_mouse_event, trigger_down_flag, trigger_up_flag, wheel_delta, wheel_steps, QueueOffer,
    RendererAdmission, RendererGate, RendererRequestKind, MOUSEEVENTF_LEFTDOWN,
    MOUSEEVENTF_LEFTUP, MOUSEEVENTF_MIDDLEDOWN, MOUSEEVENTF_MIDDLEUP, MOUSEEVENTF_RIGHTDOWN,
    MOUSEEVENTF_RIGHTUP, RENDERER_QUEUE_CAPACITY, WM_LBUTTONDOWN, WM_MBUTTONUP, WM_MOUSEMOVE,
    WM_MOUSEWHEEL, WM_RBUTTONUP,
};
use zero_gesture::input::{ConfigGeneration, SessionId};
use zero_gesture::lane::RenderWork;
use zero_gesture::win32::{
    dispatch_start, hook_passes_through, owner_loop_step, render_request_kind, DispatchStart,
    OwnerLoopStep, LLMHF_INJECTED, WM_ACTION_READY, WM_CONTEXT_READY, WM_RENDER_READY, WM_TIMER,
};

#[test]
fn wheel_translation_preserves_sign_and_notch_count() {
    assert_eq!(wheel_delta(240_u32 << 16), 240);
    assert_eq!(wheel_steps(240), 2);
    assert_eq!(wheel_delta(((-120_i16) as u16 as u32) << 16), -120);
    assert_eq!(wheel_steps(-120), 1);
}

#[test]
fn trigger_replay_flags_match_win32_buttons() {
    assert_eq!(trigger_down_flag(TriggerButton::Left), MOUSEEVENTF_LEFTDOWN);
    assert_eq!(trigger_up_flag(TriggerButton::Left), MOUSEEVENTF_LEFTUP);
    assert_eq!(trigger_down_flag(TriggerButton::Right), MOUSEEVENTF_RIGHTDOWN);
    assert_eq!(trigger_up_flag(TriggerButton::Right), MOUSEEVENTF_RIGHTUP);
    assert_eq!(trigger_down_flag(TriggerButton::Middle), MOUSEEVENTF_MIDDLEDOWN);
    assert_eq!(trigger_up_flag(TriggerButton::Middle), MOUSEEVENTF_MIDDLEUP);
    assert_eq!(
        (MOUSEEVENTF_LEFTDOWN, MOUSEEVENTF_RIGHTUP, MOUSEEVENTF_MIDDLEUP),
        (0x0002, 0x0010, 0x0040)
    );
}

#[test]
fn context_mailbox_keeps_only_the_latest_complete_value() {
    let mut mailbox = ContextMailbox::new();
    mailbox.publish(Some(ContextView {
        generation: 7,
        binding_set: BindingSetId::from_index(3).unwrap(),
        target: TargetToken(41),
        point: Point::new(-10, 20),
        updated_tick: 99,
    }));
    mailbox.publish(None);
    assert!(mailbox.read().is_none());
}

#[test]
fn delayed_context_resolution_is_rejected_as_stale() {
    assert!(context_resolution_is_fresh(1_000, 1_100));
    assert!(!context_resolution_is_fresh(1_000, 1_101));
    assert!(context_resolution_is_fresh(u32::MAX - 50, 49));
}

#[test]
fn context_mailbox_reads_back_the_published_fields() {
    let mut mailbox = ContextMailbox::new();
    assert!(mailbox.read().is_none());
    let first = ContextView {
        generation: 11,
        binding_set: BindingSetId::from_index(1).unwrap(),
        target: TargetToken(101),
        point: Point::new(1_001, -1_001),
        updated_tick: 1_011,
    };
    let second = ContextView {
        generation: 22,
        binding_set: BindingSetId::from_index(2).unwrap(),
        target: TargetToken(202),
        point: Point::new(i32::MIN, i32::MAX),
        updated_tick: 2_022,
    };
    mailbox.publish(Some(first));
    assert_eq!(mailbox.read(), Some(first));
    mailbox.publish(Some(second));
    assert_eq!(mailbox.read(), Some(second));
}

fn send(
    gate: &mut RendererGate,
    sender: &crossbeam_channel::Sender<(RendererRequestKind, u32)>,
    kind: RendererRequestKind,
    lossy: bool,
    payload: u32,
) -> bool {
    match gate.admission(kind, lossy, sender.len()) {
        RendererAdmission::Refuse => false,
        RendererAdmission::Drop => true,
        RendererAdmission::Offer => {
            let offer = match sender.try_send((kind, payload)) {
                Ok(()) => QueueOffer::Accepted,
                Err(TrySendError::Full(_)) => QueueOffer::Full,
                Err(TrySendError::Disconnected(_)) => QueueOffer::Disconnected,
            };
            gate.record_offer(kind, lossy, offer)
        }
    }
}

#[test]
fn renderer_owner_queue_reserves_terminal_during_lossy_saturation() {
    let (sender, requests) = bounded(RENDERER_QUEUE_CAPACITY);
    let mut gate = RendererGate::new();

    assert!(send(&mut gate, &sender, RendererRequestKind::Start, false, 0));
    for index in 0..RENDERER_QUEUE_CAPACITY as u32 {
        assert!(send(&mut gate, &sender, RendererRequestKind::Other, true, index));
    }
    assert_eq!(requests.len(), RENDERER_QUEUE_CAPACITY - 1);
    assert!(send(&mut gate, &sender, RendererRequestKind::End, false, 0));
    assert_eq!(requests.len(), RENDERER_QUEUE_CAPACITY);
    assert_eq!(
        requests.try_iter().last(),
        Some((RendererRequestKind::End, 0))
    );
}

#[test]
fn renderer_gate_refuses_out_of_order_lifecycle() {
    let mut gate = RendererGate::new();
    assert_eq!(
        gate.admission(RendererRequestKind::End, false, 0),
        RendererAdmission::Refuse
    );
    assert_eq!(
        gate.admission(RendererRequestKind::Start, false, RENDERER_QUEUE_CAPACITY - 1),
        RendererAdmission::Refuse
    );
    assert!(gate.record_offer(RendererRequestKind::Start, false, QueueOffer::Accepted));
    assert_eq!(
        gate.admission(RendererRequestKind::Start, false, 0),
        RendererAdmission::Refuse
    );
    assert!(!gate.record_offer(RendererRequestKind::Other, false, QueueOffer::Full));
    assert!(gate.record_offer(RendererRequestKind::Other, true, QueueOffer::Full));
    assert!(!gate.record_offer(RendererRequestKind::Other, true, QueueOffer::Disconnected));
}

#[test]
fn mouse_messages_map_to_portable_events() {
    assert_eq!(
        to_mouse_event(WM_LBUTTONDOWN, 0),
        MouseEvent::ButtonDown(TriggerButton::Left)
    );
    assert_eq!(
        to_mouse_event(WM_RBUTTONUP, 0),
        MouseEvent::ButtonUp(TriggerButton::Right)
    );
    assert_eq!(
        to_mouse_event(WM_MBUTTONUP, 0),
        MouseEvent::ButtonUp(TriggerButton::Middle)
    );
    assert_eq!(to_mouse_event(WM_MOUSEMOVE, 0), MouseEvent::MouseMove);
    assert_eq!(to_mouse_event(WM_MOUSEWHEEL, 360 << 16), MouseEvent::WheelUp(3));
    assert_eq!(
        to_mouse_event(WM_MOUSEWHEEL, ((-60_i16) as u16 as u32) << 16),
        MouseEvent::WheelDown(1)
    );
    assert_eq!(to_mouse_event(WM_MOUSEWHEEL, 0xFFFF), MouseEvent::Other);
    assert_eq!(to_mouse_event(0x020E, 0), MouseEvent::Other);
    assert_eq!(wheel_steps(0), 0);
    assert_eq!(wheel_steps(i16::MIN), 273);
}

#[test]
fn screen_points_scale_to_the_virtual_desktop() {
    assert_eq!(screen_to_absolute(960, 540, 0, 0, 1920, 1080), (32_768, 32_768));
    assert_eq!(screen_to_absolute(-1, 0, 0, 0, 1920, 1080), (-34, 0));
    assert_eq!(screen_to_absolute(0, 0, -1920, 0, 3840, 1080), (32_768, 0));
    assert_eq!(screen_to_absolute(5, 5, 0, 0, 0, 1080), (0, 0));
}

#[test]
fn unchanged_context_is_republished_only_after_the_period() {
    let view = ContextView {
        generation: 1,
        binding_set: BindingSetId(0),
        target: TargetToken(9),
        point: Point::new(3, 4),
        updated_tick: 10,
    };
    let later = ContextView {
        updated_tick: 20,
        ..view
    };
    let signature = context_signature(Some(view));
    assert_eq!(context_signature(Some(later)), signature);
    assert!(!context_publish_due(context_signature(Some(later)), signature, 30, 10));
    assert!(context_publish_due(context_signature(Some(later)), signature, 35, 10));
    assert!(context_publish_due(None, signature, 11, 10));
    assert!(!context_publish_due(None, None, 11, 10));
}

#[test]
fn sampled_context_falls_back_to_the_default_binding_set() {
    let sampled = context_from_sample(
        4,
        None,
        BindingSetId(0),
        TargetToken(77),
        Point::new(5, 6),
        1_000,
        1_040,
    );
    assert_eq!(
        sampled,
        Some(ContextView {
            generation: 4,
            binding_set: BindingSetId(0),
            target: TargetToken(77),
            point: Point::new(5, 6),
            updated_tick: 1_000,
        })
    );
    let matched = context_from_sample(
        4,
        Some(BindingSetId(2)),
        BindingSetId(0),
        TargetToken(77),
        Point::new(5, 6),
        1_000,
        1_040,
    );
    assert_eq!(matched.unwrap().binding_set, BindingSetId(2));
    assert!(context_from_sample(
        4,
        None,
        BindingSetId(0),
        TargetToken(77),
        Point::new(5, 6),
        1_000,
        1_101
    )
    .is_none());
}

#[test]
fn owner_thread_messages_select_the_work() {
    assert!(hook_passes_through(-1, 0));
    assert!(hook_passes_through(0, LLMHF_INJECTED));
    assert!(!hook_passes_through(0, 0x10));
    assert_eq!(owner_loop_step(0, WM_TIMER), OwnerLoopStep::Quit);
    assert_eq!(owner_loop_step(-1, WM_TIMER), OwnerLoopStep::Fail);
    assert_eq!(owner_loop_step(1, WM_ACTION_READY), OwnerLoopStep::DrainActions);
    assert_eq!(owner_loop_step(1, WM_RENDER_READY), OwnerLoopStep::DrainRenderer);
    assert_eq!(owner_loop_step(1, WM_CONTEXT_READY), OwnerLoopStep::UpdateContext);
    assert_eq!(owner_loop_step(1, WM_TIMER), OwnerLoopStep::SafetyTimer);
    assert_eq!(owner_loop_step(1, 0x0200), OwnerLoopStep::Dispatch);
    assert_eq!(WM_ACTION_READY, 0x8001);
}

#[test]
fn queued_work_maps_to_renderer_requests_and_dispatch_steps() {
    let session = SessionId(1);
    assert_eq!(
        render_request_kind(RenderWork::Start {
            session,
            generation: ConfigGeneration(1)
        }),
        (RendererRequestKind::Start, false)
    );
    assert_eq!(
        render_request_kind(RenderWork::Point {
            session,
            point: Point::new(1, 1)
        }),
        (RendererRequestKind::Other, true)
    );
    assert_eq!(
        render_request_kind(RenderWork::Label {
            session,
            action: None
        }),
        (RendererRequestKind::Other, true)
    );
    assert_eq!(
        render_request_kind(RenderWork::End { session }),
        (RendererRequestKind::End, false)
    );
    assert_eq!(dispatch_start(0, true), DispatchStart::FailBeforeInjection);
    assert_eq!(dispatch_start(2, false), DispatchStart::ExecutorFault);
    assert_eq!(dispatch_start(2, true), DispatchStart::Inject(2));
}
