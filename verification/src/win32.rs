//! Mapping between Win32 low-level mouse data and the portable input
//! vocabulary, and the coordinates of replayed input.
use vstd::prelude::*;

use vstd::wrapping::u32_specs::wrapping_sub;

use crate::input::{
    BindingSetId, ContextView, MouseEvent, Point, TargetToken, TriggerButton, CONTEXT_MAX_AGE_MS,
};
use crate::lane::RenderWork;

verus! {

/// `WM_MOUSEMOVE`.
pub const WM_MOUSEMOVE: u32 = 0x0200;
/// `WM_LBUTTONDOWN`.
pub const WM_LBUTTONDOWN: u32 = 0x0201;
/// `WM_LBUTTONUP`.
pub const WM_LBUTTONUP: u32 = 0x0202;
/// `WM_RBUTTONDOWN`.
pub const WM_RBUTTONDOWN: u32 = 0x0204;
/// `WM_RBUTTONUP`.
pub const WM_RBUTTONUP: u32 = 0x0205;
/// `WM_MBUTTONDOWN`.
pub const WM_MBUTTONDOWN: u32 = 0x0207;
/// `WM_MBUTTONUP`.
pub const WM_MBUTTONUP: u32 = 0x0208;
/// `WM_MOUSEWHEEL`.
pub const WM_MOUSEWHEEL: u32 = 0x020A;

/// `MOUSEEVENTF_LEFTDOWN`.
pub const MOUSEEVENTF_LEFTDOWN: u32 = 0x0002;
/// `MOUSEEVENTF_LEFTUP`.
pub const MOUSEEVENTF_LEFTUP: u32 = 0x0004;
/// `MOUSEEVENTF_RIGHTDOWN`.
pub const MOUSEEVENTF_RIGHTDOWN: u32 = 0x0008;
/// `MOUSEEVENTF_RIGHTUP`.
pub const MOUSEEVENTF_RIGHTUP: u32 = 0x0010;
/// `MOUSEEVENTF_MIDDLEDOWN`.
pub const MOUSEEVENTF_MIDDLEDOWN: u32 = 0x0020;
/// `MOUSEEVENTF_MIDDLEUP`.
pub const MOUSEEVENTF_MIDDLEUP: u32 = 0x0040;
/// `MOUSEEVENTF_VIRTUALDESK`.
pub const MOUSEEVENTF_VIRTUALDESK: u32 = 0x4000;
/// `MOUSEEVENTF_ABSOLUTE`.
pub const MOUSEEVENTF_ABSOLUTE: u32 = 0x8000;

/// One wheel notch.
pub const WHEEL_DELTA: u16 = 120;

/// The high 16 bits of `mouse_data`, read as a two's-complement number.
pub open spec fn signed_high_half(mouse_data: u32) -> int {
    let high = mouse_data / 0x1_0000;
    if high < 0x8000 {
        high as int
    } else {
        high - 0x1_0000
    }
}

/// The wheel rotation carried in a low-level mouse hook's data.
pub fn wheel_delta(mouse_data: u32) -> (r: i16)
    ensures
        r == signed_high_half(mouse_data),
{
    let high = mouse_data >> 16;
    let r = (high & 0xFFFF) as u16 as i16;
    assert(high == mouse_data / 0x1_0000) by (bit_vector)
        requires
            high == mouse_data >> 16,
    ;
    assert(r == if high < 0x8000 { high as int } else { high - 0x1_0000 }) by (bit_vector)
        requires
            r == (high & 0xFFFF) as u16 as i16,
            high < 0x1_0000,
    ;
    r
}

/// The number of notches a wheel rotation stands for: none for no
/// rotation, else at least one.
pub open spec fn wheel_steps_spec(delta: i16) -> int {
    let notches = vstd::math::abs(delta as int) / (WHEEL_DELTA as nat);
    if delta == 0 {
        0
    } else if notches == 0 {
        1
    } else {
        notches as int
    }
}

pub fn wheel_steps(delta: i16) -> (r: u16)
    ensures
        r == wheel_steps_spec(delta),
{
    if delta == 0 {
        return 0;
    }
    let magnitude: u16 = if delta < 0 {
        (0 - (delta as i32)) as u16
    } else {
        delta as u16
    };
    let notches = magnitude / WHEEL_DELTA;
    if notches == 0 {
        1
    } else {
        notches
    }
}

/// The portable event a low-level mouse message stands for.
pub open spec fn mouse_event_of(message: u32, mouse_data: u32) -> MouseEvent {
    if message == WM_LBUTTONDOWN {
        MouseEvent::ButtonDown(TriggerButton::Left)
    } else if message == WM_RBUTTONDOWN {
        MouseEvent::ButtonDown(TriggerButton::Right)
    } else if message == WM_MBUTTONDOWN {
        MouseEvent::ButtonDown(TriggerButton::Middle)
    } else if message == WM_LBUTTONUP {
        MouseEvent::ButtonUp(TriggerButton::Left)
    } else if message == WM_RBUTTONUP {
        MouseEvent::ButtonUp(TriggerButton::Right)
    } else if message == WM_MBUTTONUP {
        MouseEvent::ButtonUp(TriggerButton::Middle)
    } else if message == WM_MOUSEMOVE {
        MouseEvent::MouseMove
    } else if message == WM_MOUSEWHEEL {
        let delta = signed_high_half(mouse_data);
        if delta > 0 {
            MouseEvent::WheelUp(wheel_steps_spec(delta as i16) as u16)
        } else if delta < 0 {
            MouseEvent::WheelDown(wheel_steps_spec(delta as i16) as u16)
        } else {
            MouseEvent::Other
        }
    } else {
        MouseEvent::Other
    }
}

pub fn to_mouse_event(message: u32, mouse_data: u32) -> (r: MouseEvent)
    ensures
        r == mouse_event_of(message, mouse_data),
{
    if message == WM_LBUTTONDOWN {
        MouseEvent::ButtonDown(TriggerButton::Left)
    } else if message == WM_RBUTTONDOWN {
        MouseEvent::ButtonDown(TriggerButton::Right)
    } else if message == WM_MBUTTONDOWN {
        MouseEvent::ButtonDown(TriggerButton::Middle)
    } else if message == WM_LBUTTONUP {
        MouseEvent::ButtonUp(TriggerButton::Left)
    } else if message == WM_RBUTTONUP {
        MouseEvent::ButtonUp(TriggerButton::Right)
    } else if message == WM_MBUTTONUP {
        MouseEvent::ButtonUp(TriggerButton::Middle)
    } else if message == WM_MOUSEMOVE {
        MouseEvent::MouseMove
    } else if message == WM_MOUSEWHEEL {
        let delta = wheel_delta(mouse_data);
        if delta > 0 {
            MouseEvent::WheelUp(wheel_steps(delta))
        } else if delta < 0 {
            MouseEvent::WheelDown(wheel_steps(delta))
        } else {
            MouseEvent::Other
        }
    } else {
        MouseEvent::Other
    }
}

/// A wheel message keeps the rotation's direction and counts at least one
/// notch: away from the user is up, toward the user is down, and a
/// rotation of no notch is no wheel event.
pub proof fn lemma_wheel_event_keeps_direction(mouse_data: u32)
    ensures
        ({
            let delta = signed_high_half(mouse_data);
            let event = mouse_event_of(WM_MOUSEWHEEL, mouse_data);
            &&& delta > 0 ==> (event matches MouseEvent::WheelUp(n) && n >= 1 && n
                == wheel_steps_spec(delta as i16))
            &&& delta < 0 ==> (event matches MouseEvent::WheelDown(n) && n >= 1 && n
                == wheel_steps_spec(delta as i16))
            &&& delta == 0 ==> event == MouseEvent::Other
        }),
{
    let delta = signed_high_half(mouse_data);
    assert(-0x8000 <= delta < 0x8000);
    assert(delta as i16 == delta);
}

/// The low-level hook messages that press and release a button, as the
/// Win32 documentation names them.
pub open spec fn button_messages(button: TriggerButton) -> (u32, u32) {
    match button {
        TriggerButton::Left => (WM_LBUTTONDOWN, WM_LBUTTONUP),
        TriggerButton::Right => (WM_RBUTTONDOWN, WM_RBUTTONUP),
        TriggerButton::Middle => (WM_MBUTTONDOWN, WM_MBUTTONUP),
    }
}

/// Each button message stands for the press or release of the button it
/// names, whatever the message data; and a press or release of a button
/// comes only from that button's own message.
pub proof fn lemma_button_messages_name_their_button(
    button: TriggerButton,
    message: u32,
    mouse_data: u32,
)
    ensures
        mouse_event_of(button_messages(button).0, mouse_data) == MouseEvent::ButtonDown(button),
        mouse_event_of(button_messages(button).1, mouse_data) == MouseEvent::ButtonUp(button),
        mouse_event_of(message, mouse_data) == MouseEvent::ButtonDown(button) ==> message
            == button_messages(button).0,
        mouse_event_of(message, mouse_data) == MouseEvent::ButtonUp(button) ==> message
            == button_messages(button).1,
        message == WM_MOUSEMOVE ==> mouse_event_of(message, mouse_data) == MouseEvent::MouseMove,
{
}

/// The `SendInput` flag that presses a trigger button.
pub fn trigger_down_flag(trigger: TriggerButton) -> (r: u32)
    ensures
        r == match trigger {
            TriggerButton::Left => MOUSEEVENTF_LEFTDOWN,
            TriggerButton::Right => MOUSEEVENTF_RIGHTDOWN,
            TriggerButton::Middle => MOUSEEVENTF_MIDDLEDOWN,
        },
{
    match trigger {
        TriggerButton::Left => MOUSEEVENTF_LEFTDOWN,
        TriggerButton::Right => MOUSEEVENTF_RIGHTDOWN,
        TriggerButton::Middle => MOUSEEVENTF_MIDDLEDOWN,
    }
}

/// The `SendInput` flag that releases a trigger button.
pub fn trigger_up_flag(trigger: TriggerButton) -> (r: u32)
    ensures
        r == match trigger {
            TriggerButton::Left => MOUSEEVENTF_LEFTUP,
            TriggerButton::Right => MOUSEEVENTF_RIGHTUP,
            TriggerButton::Middle => MOUSEEVENTF_MIDDLEUP,
        },
{
    match trigger {
        TriggerButton::Left => MOUSEEVENTF_LEFTUP,
        TriggerButton::Right => MOUSEEVENTF_RIGHTUP,
        TriggerButton::Middle => MOUSEEVENTF_MIDDLEUP,
    }
}

/// Division rounding toward zero, as Rust's `/` on signed integers.
pub open spec fn div_toward_zero(a: int, b: int) -> int {
    if (a >= 0) == (b > 0) {
        (vstd::math::abs(a) / vstd::math::abs(b)) as int
    } else {
        -((vstd::math::abs(a) / vstd::math::abs(b)) as int)
    }
}

proof fn lemma_div_negative_divisor(a: int, b: int)
    requires
        a >= 0,
        b < 0,
    ensures
        a / b == -(a / (-b)),
{
    let q = a / (-b);
    let r = a % (-b);
    assert(a == (-b) * q + r && 0 <= r < -b) by (nonlinear_arith)
        requires
            b < 0,
            q == a / (-b),
            r == a % (-b),
    ;
    assert(a == b * (-q) + r) by (nonlinear_arith)
        requires
            a == (-b) * q + r,
    ;
    assert(a / b == -q) by (nonlinear_arith)
        requires
            a == b * (-q) + r,
            0 <= r < -b,
            b < 0,
    ;
}

fn scale_to_absolute(offset: i64, extent: i64) -> (r: i64)
    requires
        extent != 0,
        -0x1_0000_0000 <= offset <= 0x1_0000_0000,
    ensures
        r == div_toward_zero(offset * 65_536, extent as int),
{
    proof {
        let n = offset * 65_536;
        if n >= 0 && extent < 0 {
            lemma_div_negative_divisor(n, extent as int);
        } else if n < 0 && extent < 0 {
            lemma_div_negative_divisor(-n, extent as int);
        }
    }
    offset * 65_536 / extent
}

/// A screen coordinate on the normalized 0..65536 scale of the virtual
/// desktop that starts at `origin` and spans `extent` pixels.
pub open spec fn absolute_coordinate(position: i32, origin: i32, extent: i32) -> i32 {
    div_toward_zero((position - origin) * 65_536, extent as int) as i32
}

/// Maps a screen point to absolute `SendInput` coordinates on the virtual
/// desktop given by its origin and size; a desktop of no width or height
/// maps everything to the origin.
pub fn screen_to_absolute(x: i32, y: i32, origin_x: i32, origin_y: i32, width: i32, height: i32) -> (r: (
    i32,
    i32,
))
    requires
        i32::MIN <= x - origin_x <= i32::MAX,
        i32::MIN <= y - origin_y <= i32::MAX,
    ensures
        width == 0 || height == 0 ==> r == (0i32, 0i32),
        width != 0 && height != 0 ==> r == (
            absolute_coordinate(x, origin_x, width),
            absolute_coordinate(y, origin_y, height),
        ),
{
    if width == 0 || height == 0 {
        return (0, 0);
    }
    let column = scale_to_absolute((x - origin_x) as i64, width as i64);
    let row = scale_to_absolute((y - origin_y) as i64, height as i64);
    (column as i32, row as i32)
}

/// Capacity of the queue between the hook thread and the renderer owner.
pub const RENDERER_QUEUE_CAPACITY: usize = 64;

/// How a renderer request relates to the rendering lifecycle.
#[derive(Clone, Copy, Debug, PartialEq, Eq, Structural)]
pub enum RendererRequestKind {
    /// Starts a rendering session.
    Start,
    /// Ends the rendering session.
    End,
    /// Anything else: points, labels, shutdown.
    Other,
}

/// What the hook thread does with a renderer request before it touches the
/// queue.
#[derive(Clone, Copy, Debug, PartialEq, Eq, Structural)]
pub enum RendererAdmission {
    /// Refuse it: reported as not delivered.
    Refuse,
    /// Drop it: a lossy update with no room, reported as delivered.
    Drop,
    /// Offer it to the queue.
    Offer,
}

/// The outcome of offering a request to the bounded queue.
#[derive(Clone, Copy, Debug, PartialEq, Eq, Structural)]
pub enum QueueOffer {
    Accepted,
    Full,
    Disconnected,
}

/// The admission rule: a session starts only when none is open and both
/// its start and its end fit; a lossy update never takes the slot held for
/// the end; an end needs an open session.
pub open spec fn renderer_admission_spec(
    kind: RendererRequestKind,
    lossy: bool,
    queued: usize,
    terminal_reserved: bool,
) -> RendererAdmission {
    let held: int = if terminal_reserved {
        1
    } else {
        0
    };
    if kind == RendererRequestKind::Start && (terminal_reserved || queued + 2
        > RENDERER_QUEUE_CAPACITY) {
        RendererAdmission::Refuse
    } else if lossy && queued + held >= RENDERER_QUEUE_CAPACITY {
        RendererAdmission::Drop
    } else if kind == RendererRequestKind::End && !terminal_reserved {
        RendererAdmission::Refuse
    } else {
        RendererAdmission::Offer
    }
}

/// The hook thread's side of the renderer queue: whether a rendering
/// session is open and so holds a slot for its end.
pub struct RendererGate {
    terminal_reserved: bool,
}

impl RendererGate {
    pub closed spec fn is_open(&self) -> bool {
        self.terminal_reserved
    }

    pub fn new() -> (g: Self)
        ensures
            !g.is_open(),
    {
        RendererGate { terminal_reserved: false }
    }

    /// Decides what to do with a request while `queued` requests wait.
    pub fn admission(&self, kind: RendererRequestKind, lossy: bool, queued: usize) -> (r:
        RendererAdmission)
        ensures
            r == renderer_admission_spec(kind, lossy, queued, self.is_open()),
    {
        if kind == RendererRequestKind::Start && (self.terminal_reserved || queued.saturating_add(2)
            > RENDERER_QUEUE_CAPACITY) {
            return RendererAdmission::Refuse;
        }
        let held: usize = if self.terminal_reserved {
            1
        } else {
            0
        };
        if lossy && queued.saturating_add(held) >= RENDERER_QUEUE_CAPACITY {
            return RendererAdmission::Drop;
        }
        if kind == RendererRequestKind::End && !self.terminal_reserved {
            return RendererAdmission::Refuse;
        }
        RendererAdmission::Offer
    }

    /// Records the outcome of an offer: whether the request counts as
    /// delivered. An accepted start opens the session, an accepted end
    /// closes it; a full queue loses lossy updates silently.
    pub fn record_offer(&mut self, kind: RendererRequestKind, lossy: bool, offer: QueueOffer) -> (delivered: bool)
        ensures
            delivered == (offer == QueueOffer::Accepted || (offer == QueueOffer::Full && lossy)),
            final(self).is_open() == if offer == QueueOffer::Accepted {
                if kind == RendererRequestKind::Start {
                    true
                } else if kind == RendererRequestKind::End {
                    false
                } else {
                    old(self).is_open()
                }
            } else {
                old(self).is_open()
            },
    {
        match offer {
            QueueOffer::Accepted => {
                if kind == RendererRequestKind::Start {
                    self.terminal_reserved = true;
                } else if kind == RendererRequestKind::End {
                    self.terminal_reserved = false;
                }
                true
            },
            QueueOffer::Full => lossy,
            QueueOffer::Disconnected => false,
        }
    }
}

/// While a rendering session is open, a lossy update is offered only when,
/// once queued, a slot is still left for the session's end.
pub proof fn lemma_lossy_update_leaves_room_for_end(
    kind: RendererRequestKind,
    queued: usize,
)
    requires
        renderer_admission_spec(kind, true, queued, true) == RendererAdmission::Offer,
    ensures
        queued + 1 < RENDERER_QUEUE_CAPACITY,
{
}

/// A session can only start when its start and its end both fit.
pub proof fn lemma_start_fits_its_end(lossy: bool, queued: usize, terminal_reserved: bool)
    requires
        renderer_admission_spec(RendererRequestKind::Start, lossy, queued, terminal_reserved)
            == RendererAdmission::Offer,
    ensures
        !terminal_reserved,
        queued + 2 <= RENDERER_QUEUE_CAPACITY,
{
}

/// Longest interval, in milliseconds, between two publications of an
/// unchanged context.
pub const CONTEXT_PUBLISH_PERIOD_MS: u32 = 25;

/// What of a context decides whether it must be published again: all but
/// its time stamp.
#[derive(Clone, Copy, Debug, PartialEq, Eq, Structural)]
pub struct ContextSignature {
    pub generation: u64,
    pub binding_set: BindingSetId,
    pub target: TargetToken,
    pub point: Point,
}

pub open spec fn signature_spec(context: Option<ContextView>) -> Option<ContextSignature> {
    match context {
        Some(c) => Some(
            ContextSignature {
                generation: c.generation,
                binding_set: c.binding_set,
                target: c.target,
                point: c.point,
            },
        ),
        None => None,
    }
}

/// The signature of a sampled context.
pub fn context_signature(context: Option<ContextView>) -> (r: Option<ContextSignature>)
    ensures
        r == signature_spec(context),
{
    match context {
        Some(c) => Some(
            ContextSignature {
                generation: c.generation,
                binding_set: c.binding_set,
                target: c.target,
                point: c.point,
            },
        ),
        None => None,
    }
}

/// Whether the sampler publishes: when the context changed, or when the
/// publication period has passed since the last one.
pub fn context_publish_due(
    signature: Option<ContextSignature>,
    last_signature: Option<ContextSignature>,
    tick: u32,
    last_publish_tick: u32,
) -> (r: bool)
    ensures
        r == (signature != last_signature || wrapping_sub(tick, last_publish_tick)
            >= CONTEXT_PUBLISH_PERIOD_MS),
{
    let changed = match (signature, last_signature) {
        (Some(a), Some(b)) => a != b,
        (None, None) => false,
        _ => true,
    };
    changed || tick.wrapping_sub(last_publish_tick) >= CONTEXT_PUBLISH_PERIOD_MS
}

/// The context sampled under the cursor: the matched binding set, or the
/// default one when no application matched; nothing when the sample went
/// stale while it was resolved.
pub fn context_from_sample(
    generation: u64,
    matched: Option<BindingSetId>,
    default_binding_set: BindingSetId,
    target: TargetToken,
    cursor: Point,
    sampled_tick: u32,
    resolved_tick: u32,
) -> (r: Option<ContextView>)
    ensures
        wrapping_sub(resolved_tick, sampled_tick) > CONTEXT_MAX_AGE_MS ==> r is None,
        wrapping_sub(resolved_tick, sampled_tick) <= CONTEXT_MAX_AGE_MS ==> r == Some(
            ContextView {
                generation,
                binding_set: match matched {
                    Some(b) => b,
                    None => default_binding_set,
                },
                target,
                point: cursor,
                updated_tick: sampled_tick,
            },
        ),
{
    let binding_set = match matched {
        Some(b) => b,
        None => default_binding_set,
    };
    if !crate::context::context_resolution_is_fresh(sampled_tick, resolved_tick) {
        return None;
    }
    Some(
        ContextView { generation, binding_set, target, point: cursor, updated_tick: sampled_tick },
    )
}

/// `LLMHF_INJECTED`: the event was injected rather than made by a device.
pub const LLMHF_INJECTED: u32 = 0x0000_0001;

/// `WM_TIMER`.
pub const WM_TIMER: u32 = 0x0113;

/// `WM_APP`: the first message number free for the application.
pub const WM_APP: u32 = 0x8000;

/// Posted to the owner thread when action work is queued.
pub const WM_ACTION_READY: u32 = WM_APP + 1;

/// Posted to the owner thread when render work is queued.
pub const WM_RENDER_READY: u32 = WM_APP + 2;

/// Posted to the owner thread when a new context was published.
pub const WM_CONTEXT_READY: u32 = WM_APP + 3;

/// Whether the low-level hook hands an event on untouched: when the hook
/// code says so, or when the event was injected (by this process's replay
/// or anyone else's).
pub fn hook_passes_through(n_code: i32, flags: u32) -> (r: bool)
    ensures
        r == (n_code < 0 || flags & LLMHF_INJECTED != 0),
{
    n_code < 0 || flags & LLMHF_INJECTED != 0
}

/// What the owner thread's message loop does with what `GetMessageW`
/// returned.
#[derive(Clone, Copy, Debug, PartialEq, Eq, Structural)]
pub enum OwnerLoopStep {
    /// `WM_QUIT`: leave the loop.
    Quit,
    /// The loop failed.
    Fail,
    DrainActions,
    DrainRenderer,
    UpdateContext,
    /// Run the safety timer, then look for failed workers.
    SafetyTimer,
    /// Dispatch the message to its window.
    Dispatch,
}

pub fn owner_loop_step(result: i32, message: u32) -> (r: OwnerLoopStep)
    ensures
        r == if result == 0 {
            OwnerLoopStep::Quit
        } else if result == -1 {
            OwnerLoopStep::Fail
        } else if message == WM_ACTION_READY {
            OwnerLoopStep::DrainActions
        } else if message == WM_RENDER_READY {
            OwnerLoopStep::DrainRenderer
        } else if message == WM_CONTEXT_READY {
            OwnerLoopStep::UpdateContext
        } else if message == WM_TIMER {
            OwnerLoopStep::SafetyTimer
        } else {
            OwnerLoopStep::Dispatch
        },
{
    if result == 0 {
        OwnerLoopStep::Quit
    } else if result == -1 {
        OwnerLoopStep::Fail
    } else if message == WM_ACTION_READY {
        OwnerLoopStep::DrainActions
    } else if message == WM_RENDER_READY {
        OwnerLoopStep::DrainRenderer
    } else if message == WM_CONTEXT_READY {
        OwnerLoopStep::UpdateContext
    } else if message == WM_TIMER {
        OwnerLoopStep::SafetyTimer
    } else {
        OwnerLoopStep::Dispatch
    }
}

/// How queued render work is offered to the renderer owner: its place in
/// the rendering lifecycle and whether it may be lost under load.
pub fn render_request_kind(work: RenderWork) -> (r: (RendererRequestKind, bool))
    ensures
        r == match work {
            RenderWork::Start { .. } => (RendererRequestKind::Start, false),
            RenderWork::Point { .. } => (RendererRequestKind::Other, true),
            RenderWork::Label { .. } => (RendererRequestKind::Other, true),
            RenderWork::End { .. } => (RendererRequestKind::End, false),
        },
{
    match work {
        RenderWork::Start { .. } => (RendererRequestKind::Start, false),
        RenderWork::Point { .. } => (RendererRequestKind::Other, true),
        RenderWork::Label { .. } => (RendererRequestKind::Other, true),
        RenderWork::End { .. } => (RendererRequestKind::End, false),
    }
}

/// What the action worker does with a dispatched action.
#[derive(Clone, Copy, Debug, PartialEq, Eq, Structural)]
pub enum DispatchStart {
    /// Nothing to inject: the action fails before any input is injected.
    FailBeforeInjection,
    /// The generation's configuration is gone: the executor has failed.
    ExecutorFault,
    /// Inject the action this many times.
    Inject(u16),
}

pub fn dispatch_start(repeat: u16, runtime_available: bool) -> (r: DispatchStart)
    ensures
        r == if repeat == 0 {
            DispatchStart::FailBeforeInjection
        } else if !runtime_available {
            DispatchStart::ExecutorFault
        } else {
            DispatchStart::Inject(repeat)
        },
{
    if repeat == 0 {
        DispatchStart::FailBeforeInjection
    } else if !runtime_available {
        DispatchStart::ExecutorFault
    } else {
        DispatchStart::Inject(repeat)
    }
}

} // verus!
