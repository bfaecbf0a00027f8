//! The macOS event-tap callback core: mapping Core Graphics events to the
//! portable mouse vocabulary, filtering the process's own injected events,
//! and queueing the rest for the run-loop side.
use vstd::prelude::*;

use crate::input::{ContextView, MouseEvent, Point, TriggerButton};
use crate::lane::FixedLane;

verus! {

pub const EVENT_QUEUE_CAPACITY: usize = 64;

pub const EVENT_LEFT_MOUSE_DOWN: u32 = 1;

pub const EVENT_LEFT_MOUSE_UP: u32 = 2;

pub const EVENT_RIGHT_MOUSE_DOWN: u32 = 3;

pub const EVENT_RIGHT_MOUSE_UP: u32 = 4;

pub const EVENT_MOUSE_MOVED: u32 = 5;

pub const EVENT_LEFT_MOUSE_DRAGGED: u32 = 6;

pub const EVENT_RIGHT_MOUSE_DRAGGED: u32 = 7;

pub const EVENT_SCROLL_WHEEL: u32 = 22;

pub const EVENT_OTHER_MOUSE_DOWN: u32 = 25;

pub const EVENT_OTHER_MOUSE_UP: u32 = 26;

pub const EVENT_OTHER_MOUSE_DRAGGED: u32 = 27;

pub const MIDDLE_MOUSE_BUTTON: i64 = 2;

/// Event-tap option for a tap that may swallow events.
pub const ACTIVE_EVENT_TAP: u32 = 0;

/// Event-tap option for a tap that only observes.
pub const LISTEN_ONLY_EVENT_TAP: u32 = 1;

pub const RUN_LOOP_FINISHED: i32 = 1;

pub const RUN_LOOP_STOPPED: i32 = 2;

pub const RUN_LOOP_TIMED_OUT: i32 = 3;

pub const RUN_LOOP_HANDLED_SOURCE: i32 = 4;

/// A mouse event as queued by the callback.
#[derive(Clone, Copy, Debug, PartialEq, Eq, Structural)]
pub struct NormalizedInput {
    pub event: MouseEvent,
    pub point: Point,
    pub timestamp_ns: u64,
}

#[derive(Clone, Copy, Debug, PartialEq, Eq, Structural)]
pub struct EventTapSpec {
    pub options: u32,
    pub mask: u64,
}

/// The fields the callback reads from a Core Graphics event, with the
/// location already rounded to whole pixels.
#[derive(Clone, Copy, Debug, PartialEq, Eq, Structural)]
pub struct RawInput {
    pub event_type: u32,
    pub button: i64,
    pub scroll: i64,
    pub x: i32,
    pub y: i32,
    pub timestamp_ns: u64,
}

#[derive(Clone, Copy, Debug, PartialEq, Eq, Structural)]
pub enum RunLoopDisposition {
    Continue,
    Degrade,
}

/// `|delta|`, saturated at `u16::MAX`.
pub open spec fn scroll_steps_spec(delta: i64) -> u16 {
    let magnitude: int = if delta < 0 {
        -delta
    } else {
        delta as int
    };
    if magnitude > u16::MAX {
        u16::MAX
    } else {
        magnitude as u16
    }
}

/// Wheel notches for a scroll delta: its magnitude, saturated at `u16::MAX`.
pub fn scroll_steps(delta: i64) -> (r: u16)
    ensures
        r == scroll_steps_spec(delta),
{
    let magnitude: u64 = if delta >= 0 {
        delta as u64
    } else {
        ((-(delta + 1)) as u64) + 1
    };
    if magnitude > 0xFFFF {
        0xFFFF
    } else {
        magnitude as u16
    }
}

pub open spec fn normalize_event_spec(event_type: u32, button: i64, scroll: i64) -> Option<
    MouseEvent,
> {
    if event_type == EVENT_LEFT_MOUSE_DOWN {
        Some(MouseEvent::ButtonDown(TriggerButton::Left))
    } else if event_type == EVENT_LEFT_MOUSE_UP {
        Some(MouseEvent::ButtonUp(TriggerButton::Left))
    } else if event_type == EVENT_RIGHT_MOUSE_DOWN {
        Some(MouseEvent::ButtonDown(TriggerButton::Right))
    } else if event_type == EVENT_RIGHT_MOUSE_UP {
        Some(MouseEvent::ButtonUp(TriggerButton::Right))
    } else if event_type == EVENT_OTHER_MOUSE_DOWN {
        if button == MIDDLE_MOUSE_BUTTON {
            Some(MouseEvent::ButtonDown(TriggerButton::Middle))
        } else {
            Some(MouseEvent::Other)
        }
    } else if event_type == EVENT_OTHER_MOUSE_UP {
        if button == MIDDLE_MOUSE_BUTTON {
            Some(MouseEvent::ButtonUp(TriggerButton::Middle))
        } else {
            Some(MouseEvent::Other)
        }
    } else if event_type == EVENT_MOUSE_MOVED || event_type == EVENT_LEFT_MOUSE_DRAGGED
        || event_type == EVENT_RIGHT_MOUSE_DRAGGED || event_type == EVENT_OTHER_MOUSE_DRAGGED {
        Some(MouseEvent::MouseMove)
    } else if event_type == EVENT_SCROLL_WHEEL {
        if scroll > 0 {
            Some(MouseEvent::WheelUp(scroll_steps_spec(scroll)))
        } else if scroll < 0 {
            Some(MouseEvent::WheelDown(scroll_steps_spec(scroll)))
        } else {
            Some(MouseEvent::Other)
        }
    } else {
        None
    }
}

/// The portable event for a Core Graphics event type, or `None` for event
/// types the tap does not handle.
pub fn normalize_event(event_type: u32, button: i64, scroll: i64) -> (r: Option<MouseEvent>)
    ensures
        r == normalize_event_spec(event_type, button, scroll),
{
    match event_type {
        EVENT_LEFT_MOUSE_DOWN => Some(MouseEvent::ButtonDown(TriggerButton::Left)),
        EVENT_LEFT_MOUSE_UP => Some(MouseEvent::ButtonUp(TriggerButton::Left)),
        EVENT_RIGHT_MOUSE_DOWN => Some(MouseEvent::ButtonDown(TriggerButton::Right)),
        EVENT_RIGHT_MOUSE_UP => Some(MouseEvent::ButtonUp(TriggerButton::Right)),
        EVENT_OTHER_MOUSE_DOWN => {
            if button == MIDDLE_MOUSE_BUTTON {
                Some(MouseEvent::ButtonDown(TriggerButton::Middle))
            } else {
                Some(MouseEvent::Other)
            }
        },
        EVENT_OTHER_MOUSE_UP => {
            if button == MIDDLE_MOUSE_BUTTON {
                Some(MouseEvent::ButtonUp(TriggerButton::Middle))
            } else {
                Some(MouseEvent::Other)
            }
        },
        EVENT_MOUSE_MOVED | EVENT_LEFT_MOUSE_DRAGGED | EVENT_RIGHT_MOUSE_DRAGGED
        | EVENT_OTHER_MOUSE_DRAGGED => Some(MouseEvent::MouseMove),
        EVENT_SCROLL_WHEEL => {
            if scroll > 0 {
                Some(MouseEvent::WheelUp(scroll_steps(scroll)))
            } else if scroll < 0 {
                Some(MouseEvent::WheelDown(scroll_steps(scroll)))
            } else {
                Some(MouseEvent::Other)
            }
        },
        _ => None,
    }
}

/// The bit selecting `event_type` in an event mask.
pub fn event_mask(event_type: u32) -> (r: u64)
    requires
        event_type < 64,
    ensures
        r == 1u64 << event_type,
{
    1u64 << event_type
}

/// Mask of every mouse event type the tap handles.
pub open spec fn mouse_event_mask() -> u64 {
    (1u64 << EVENT_LEFT_MOUSE_DOWN) | (1u64 << EVENT_LEFT_MOUSE_UP) | (1u64
        << EVENT_RIGHT_MOUSE_DOWN) | (1u64 << EVENT_RIGHT_MOUSE_UP) | (1u64 << EVENT_MOUSE_MOVED)
        | (1u64 << EVENT_LEFT_MOUSE_DRAGGED) | (1u64 << EVENT_RIGHT_MOUSE_DRAGGED) | (1u64
        << EVENT_SCROLL_WHEEL) | (1u64 << EVENT_OTHER_MOUSE_DOWN) | (1u64 << EVENT_OTHER_MOUSE_UP)
        | (1u64 << EVENT_OTHER_MOUSE_DRAGGED)
}

/// The tap handles exactly the event types its mask selects: every type
/// whose bit is set normalizes to some portable event, every other type is
/// ignored; a pointer move, and a drag with any button held, is a move; and
/// the left and right button events are the press and release of the
/// button they name.
pub proof fn lemma_tap_handles_its_mask(event_type: u32, button: i64, scroll: i64)
    requires
        event_type < 64,
    ensures
        ((mouse_event_mask() >> event_type) & 1 == 1) <==> normalize_event_spec(
            event_type,
            button,
            scroll,
        ) is Some,
        event_type == EVENT_MOUSE_MOVED || event_type == EVENT_LEFT_MOUSE_DRAGGED || event_type
            == EVENT_RIGHT_MOUSE_DRAGGED || event_type == EVENT_OTHER_MOUSE_DRAGGED
            ==> normalize_event_spec(event_type, button, scroll) == Some(MouseEvent::MouseMove),
        normalize_event_spec(EVENT_LEFT_MOUSE_DOWN, button, scroll) == Some(
            MouseEvent::ButtonDown(TriggerButton::Left),
        ),
        normalize_event_spec(EVENT_LEFT_MOUSE_UP, button, scroll) == Some(
            MouseEvent::ButtonUp(TriggerButton::Left),
        ),
        normalize_event_spec(EVENT_RIGHT_MOUSE_DOWN, button, scroll) == Some(
            MouseEvent::ButtonDown(TriggerButton::Right),
        ),
        normalize_event_spec(EVENT_RIGHT_MOUSE_UP, button, scroll) == Some(
            MouseEvent::ButtonUp(TriggerButton::Right),
        ),
        normalize_event_spec(EVENT_OTHER_MOUSE_DOWN, button, scroll) == Some(
            if button == MIDDLE_MOUSE_BUTTON {
                MouseEvent::ButtonDown(TriggerButton::Middle)
            } else {
                MouseEvent::Other
            },
        ),
        normalize_event_spec(EVENT_OTHER_MOUSE_UP, button, scroll) == Some(
            if button == MIDDLE_MOUSE_BUTTON {
                MouseEvent::ButtonUp(TriggerButton::Middle)
            } else {
                MouseEvent::Other
            },
        ),
        scroll > 0 ==> (normalize_event_spec(EVENT_SCROLL_WHEEL, button, scroll) matches Some(
            MouseEvent::WheelUp(n),
        ) && n >= 1 && (n == scroll || (scroll > u16::MAX && n == u16::MAX))),
        scroll < 0 ==> (normalize_event_spec(EVENT_SCROLL_WHEEL, button, scroll) matches Some(
            MouseEvent::WheelDown(n),
        ) && n >= 1 && (n == -scroll || (-scroll > u16::MAX && n == u16::MAX))),
        normalize_event_spec(EVENT_SCROLL_WHEEL, button, 0) == Some(MouseEvent::Other),
{
    assert(mouse_event_mask() == 0x0E40_00FEu64) by (bit_vector);
    let t = event_type;
    assert(((0x0E40_00FEu64 >> t) & 1 == 1) <==> (t == 1 || t == 2 || t == 3 || t == 4 || t == 5
        || t == 6 || t == 7 || t == 22 || t == 25 || t == 26 || t == 27)) by (bit_vector)
        requires
            t < 64,
    ;
}

fn mouse_mask() -> (r: u64)
    ensures
        r == mouse_event_mask(),
{
    event_mask(EVENT_LEFT_MOUSE_DOWN) | event_mask(EVENT_LEFT_MOUSE_UP) | event_mask(
        EVENT_RIGHT_MOUSE_DOWN,
    ) | event_mask(EVENT_RIGHT_MOUSE_UP) | event_mask(EVENT_MOUSE_MOVED) | event_mask(
        EVENT_LEFT_MOUSE_DRAGGED,
    ) | event_mask(EVENT_RIGHT_MOUSE_DRAGGED) | event_mask(EVENT_SCROLL_WHEEL) | event_mask(
        EVENT_OTHER_MOUSE_DOWN,
    ) | event_mask(EVENT_OTHER_MOUSE_UP) | event_mask(EVENT_OTHER_MOUSE_DRAGGED)
}

/// The tap of the active input owner: it may swallow the mouse events.
pub fn event_tap_spec() -> (spec: EventTapSpec)
    ensures
        spec == (EventTapSpec { options: ACTIVE_EVENT_TAP, mask: mouse_event_mask() }),
{
    EventTapSpec { options: ACTIVE_EVENT_TAP, mask: mouse_mask() }
}

/// The tap of the observing input owner: it only listens to the mouse events.
pub fn listen_only_event_tap_spec() -> (spec: EventTapSpec)
    ensures
        spec == (EventTapSpec { options: LISTEN_ONLY_EVENT_TAP, mask: mouse_event_mask() }),
{
    EventTapSpec { options: LISTEN_ONLY_EVENT_TAP, mask: mouse_mask() }
}

/// A run-loop slice that timed out keeps the tap running; any other result
/// degrades the owner to pass-through.
pub fn classify_run_loop_result(result: i32) -> (r: RunLoopDisposition)
    ensures
        r == if result == RUN_LOOP_TIMED_OUT {
            RunLoopDisposition::Continue
        } else {
            RunLoopDisposition::Degrade
        },
{
    if result == RUN_LOOP_TIMED_OUT {
        RunLoopDisposition::Continue
    } else {
        RunLoopDisposition::Degrade
    }
}

/// Counters of the tap, as read by tests and diagnostics.
#[derive(Clone, Copy, Debug, PartialEq, Eq, Structural)]
pub struct KpiSnapshot {
    pub received: u64,
    pub enqueued: u64,
    pub dropped: u64,
    pub processed: u64,
    pub disabled: u64,
}

/// State shared by the tap callback (producer) and the run loop (consumer).
pub struct TapState {
    marker: i64,
    queue: FixedLane<NormalizedInput, EVENT_QUEUE_CAPACITY>,
    received: u64,
    enqueued: u64,
    dropped: u64,
    processed: u64,
    disabled: u64,
    reenable_requested: bool,
}

pub open spec fn wrapping_inc(x: u64) -> u64 {
    if x == u64::MAX {
        0
    } else {
        (x + 1) as u64
    }
}

fn inc(x: u64) -> (r: u64)
    ensures
        r == wrapping_inc(x),
{
    if x == u64::MAX {
        0
    } else {
        x + 1
    }
}

/// The input a raw event is queued as, if it is a mouse event the engine
/// handles at all.
pub open spec fn captured_input(raw: RawInput) -> Option<NormalizedInput> {
    match normalize_event_spec(raw.event_type, raw.button, raw.scroll) {
        Some(event) => Some(
            NormalizedInput {
                event,
                point: Point { x: raw.x, y: raw.y },
                timestamp_ns: raw.timestamp_ns,
            },
        ),
        None => None,
    }
}

/// The queue after capturing a raw event: the input joins the back while
/// there is room; a full queue drops the new input and keeps the old ones.
pub open spec fn queue_after_capture(queued: Seq<NormalizedInput>, raw: RawInput) -> Seq<
    NormalizedInput,
> {
    match captured_input(raw) {
        Some(input) => if queued.len() < EVENT_QUEUE_CAPACITY {
            queued.push(input)
        } else {
            queued
        },
        None => queued,
    }
}

/// The counters after capturing a raw event into a queue of `queued_len`
/// inputs.
pub open spec fn counters_after_capture(counters: KpiSnapshot, queued_len: nat, raw: RawInput) -> KpiSnapshot {
    match captured_input(raw) {
        Some(_) => if queued_len < EVENT_QUEUE_CAPACITY {
            KpiSnapshot {
                received: wrapping_inc(counters.received),
                enqueued: wrapping_inc(counters.enqueued),
                ..counters
            }
        } else {
            KpiSnapshot {
                received: wrapping_inc(counters.received),
                dropped: wrapping_inc(counters.dropped),
                ..counters
            }
        },
        None => counters,
    }
}

impl TapState {
    /// The marker the process writes into the events it injects.
    pub closed spec fn marker_spec(&self) -> i64 {
        self.marker
    }

    /// Queued inputs, oldest first.
    pub closed spec fn queued(&self) -> Seq<NormalizedInput> {
        self.queue.contents()
    }

    pub closed spec fn counters(&self) -> KpiSnapshot {
        KpiSnapshot {
            received: self.received,
            enqueued: self.enqueued,
            dropped: self.dropped,
            processed: self.processed,
            disabled: self.disabled,
        }
    }

    pub closed spec fn reenable_pending(&self) -> bool {
        self.reenable_requested
    }

    pub closed spec fn wf(&self) -> bool {
        self.queue.wf()
    }

    pub fn new() -> (state: Self)
        ensures
            state.wf(),
            state.marker_spec() == 0,
            state.queued() == Seq::<NormalizedInput>::empty(),
            state.counters() == (KpiSnapshot {
                received: 0,
                enqueued: 0,
                dropped: 0,
                processed: 0,
                disabled: 0,
            }),
            !state.reenable_pending(),
    {
        TapState::with_marker(0)
    }

    pub fn with_marker(marker: i64) -> (state: Self)
        ensures
            state.wf(),
            state.marker_spec() == marker,
            state.queued() == Seq::<NormalizedInput>::empty(),
            state.counters() == (KpiSnapshot {
                received: 0,
                enqueued: 0,
                dropped: 0,
                processed: 0,
                disabled: 0,
            }),
            !state.reenable_pending(),
    {
        TapState {
            marker,
            queue: FixedLane::new(),
            received: 0,
            enqueued: 0,
            dropped: 0,
            processed: 0,
            disabled: 0,
            reenable_requested: false,
        }
    }

    /// Normalizes a raw event and queues it, dropping it when the queue is
    /// full; the queued input and whether it was queued.
    pub fn capture_raw(&mut self, raw: RawInput) -> (r: Option<(NormalizedInput, bool)>)
        requires
            old(self).wf(),
        ensures
            final(self).wf(),
            final(self).marker_spec() == old(self).marker_spec(),
            final(self).reenable_pending() == old(self).reenable_pending(),
            final(self).queued() == queue_after_capture(old(self).queued(), raw),
            final(self).counters() == counters_after_capture(
                old(self).counters(),
                old(self).queued().len(),
                raw,
            ),
            r == match captured_input(raw) {
                Some(input) => Some((input, old(self).queued().len() < EVENT_QUEUE_CAPACITY)),
                None => None,
            },
    {
        let event = match normalize_event(raw.event_type, raw.button, raw.scroll) {
            Some(event) => event,
            None => return None,
        };
        self.received = inc(self.received);
        let input = NormalizedInput {
            event,
            point: Point::new(raw.x, raw.y),
            timestamp_ns: raw.timestamp_ns,
        };
        let enqueued = self.queue.push(input);
        if enqueued {
            self.enqueued = inc(self.enqueued);
        } else {
            self.dropped = inc(self.dropped);
        }
        Some((input, enqueued))
    }

    /// Captures an event unless it carries this process's own marker.
    pub fn capture_tagged_raw(&mut self, source_marker: i64, raw: RawInput)
        requires
            old(self).wf(),
        ensures
            final(self).wf(),
            source_marker == old(self).marker_spec() ==> *final(self) == *old(self),
            source_marker != old(self).marker_spec() ==> {
                &&& final(self).queued() == queue_after_capture(old(self).queued(), raw)
                &&& final(self).counters() == counters_after_capture(
                    old(self).counters(),
                    old(self).queued().len(),
                    raw,
                )
                &&& final(self).marker_spec() == old(self).marker_spec()
                &&& final(self).reenable_pending() == old(self).reenable_pending()
            },
    {
        if source_marker != self.marker {
            self.capture_raw(raw);
        }
    }

    /// Records that the system disabled the tap, asking for re-enabling.
    pub fn note_disabled(&mut self)
        requires
            old(self).wf(),
        ensures
            final(self).wf(),
            final(self).reenable_pending(),
            final(self).counters() == (KpiSnapshot {
                disabled: wrapping_inc(old(self).counters().disabled),
                ..old(self).counters()
            }),
            final(self).queued() == old(self).queued(),
            final(self).marker_spec() == old(self).marker_spec(),
    {
        self.disabled = inc(self.disabled);
        self.reenable_requested = true;
    }

    /// Takes the pending re-enable request: notifications between two takes
    /// coalesce into one.
    pub fn take_reenable_request(&mut self) -> (r: bool)
        requires
            old(self).wf(),
        ensures
            final(self).wf(),
            r == old(self).reenable_pending(),
            !final(self).reenable_pending(),
            final(self).counters() == old(self).counters(),
            final(self).queued() == old(self).queued(),
            final(self).marker_spec() == old(self).marker_spec(),
    {
        let r = self.reenable_requested;
        self.reenable_requested = false;
        r
    }

    /// Removes the oldest queued input.
    pub fn pop(&mut self) -> (r: Option<NormalizedInput>)
        requires
            old(self).wf(),
        ensures
            final(self).wf(),
            old(self).queued().len() == 0 ==> (r is None) && final(self).queued() == old(self).queued(),
            old(self).queued().len() > 0 ==> r == Some(old(self).queued()[0]) && final(self).queued()
                == old(self).queued().drop_first(),
            final(self).counters() == old(self).counters(),
            final(self).marker_spec() == old(self).marker_spec(),
            final(self).reenable_pending() == old(self).reenable_pending(),
    {
        self.queue.pop()
    }

    /// Drains the queue, oldest first, counting each drained input as
    /// processed.
    pub fn drain(&mut self) -> (inputs: Vec<NormalizedInput>)
        requires
            old(self).wf(),
        ensures
            final(self).wf(),
            inputs@ == old(self).queued(),
            final(self).queued() == Seq::<NormalizedInput>::empty(),
            final(self).counters() == (KpiSnapshot {
                processed: ((old(self).counters().processed + inputs@.len()) % 0x1_0000_0000_0000_0000) as u64,
                ..old(self).counters()
            }),
            final(self).marker_spec() == old(self).marker_spec(),
            final(self).reenable_pending() == old(self).reenable_pending(),
    {
        let mut inputs: Vec<NormalizedInput> = Vec::new();
        let ghost initial = self.queued();
        let ghost start = self.counters();
        while self.queue.len() > 0
            invariant
                self.wf(),
                initial == inputs@ + self.queued(),
                self.counters() == (KpiSnapshot {
                    processed: ((start.processed + inputs@.len()) % 0x1_0000_0000_0000_0000) as u64,
                    ..start
                }),
                self.marker_spec() == old(self).marker_spec(),
                self.reenable_pending() == old(self).reenable_pending(),
            decreases self.queued().len(),
        {
            let ghost before = self.queued();
            let ghost count = inputs@.len();
            let input = self.queue.pop();
            if let Some(input) = input {
                inputs.push(input);
                let previous = self.processed;
                self.processed = inc(self.processed);
                assert(self.processed == ((start.processed + count + 1) % 0x1_0000_0000_0000_0000) as u64) by (nonlinear_arith)
                    requires
                        previous == ((start.processed + count) % 0x1_0000_0000_0000_0000) as u64,
                        self.processed == (if previous == u64::MAX { 0 } else { previous + 1 }),
                        count >= 0,
                ;
                assert(initial =~= inputs@ + self.queued());
            }
        }
        assert(self.queued() =~= Seq::<NormalizedInput>::empty());
        assert(inputs@ =~= initial);
        inputs
    }

    pub fn snapshot(&self) -> (s: KpiSnapshot)
        ensures
            s == self.counters(),
    {
        KpiSnapshot {
            received: self.received,
            enqueued: self.enqueued,
            dropped: self.dropped,
            processed: self.processed,
            disabled: self.disabled,
        }
    }
}

/// The callback leaf: reads the raw event only when it is not the
/// process's own, then captures it.
pub fn capture_callback_event<F: FnOnce() -> RawInput>(
    state: &mut TapState,
    source_marker: i64,
    raw: F,
) -> (r: Option<(NormalizedInput, bool)>)
    requires
        old(state).wf(),
        call_requires(raw, ()),
    ensures
        final(state).wf(),
        source_marker == old(state).marker_spec() ==> r is None && *final(state) == *old(state),
        source_marker != old(state).marker_spec() ==> exists|read: RawInput|
            {
                &&& call_ensures(raw, (), read)
                &&& final(state).queued() == queue_after_capture(old(state).queued(), read)
                &&& final(state).counters() == counters_after_capture(
                    old(state).counters(),
                    old(state).queued().len(),
                    read,
                )
                &&& r == match captured_input(read) {
                    Some(input) => Some(
                        (input, old(state).queued().len() < EVENT_QUEUE_CAPACITY),
                    ),
                    None => None,
                }
            },
{
    if source_marker != state.marker {
        let input = raw();
        state.capture_raw(input)
    } else {
        None
    }
}

/// How the owner wants window context for an input.
#[derive(Clone, Copy, Debug, PartialEq, Eq, Structural)]
pub enum ContextRoute {
    /// Ask for a new context and use the latest one.
    Observe,
    /// Use the latest context without asking for a new one.
    Cached,
    /// No context is needed.
    Inactive,
}

/// The owner's clock tick of an input: its time stamp in whole
/// milliseconds, wrapping at 32 bits.
pub open spec fn input_tick(input: NormalizedInput) -> u32 {
    (input.timestamp_ns / 1_000_000) as u32
}

/// One step of the run-loop consumer for a drained input: ask the owner how
/// context is routed, tell the context worker whether context is needed,
/// request new context when routed to observe, read the latest context only
/// when it is needed, and hand the input and that context to the consumer.
/// Returns the input's tick.
pub fn process_input_step<R, S, O, L, C>(
    input: NormalizedInput,
    route: R,
    set_needed: S,
    observe: O,
    latest: L,
    consume: C,
) -> (tick: u32)
    where
        R: FnOnce(MouseEvent) -> ContextRoute,
        S: FnOnce(bool),
        O: FnOnce(MouseEvent, Point, u64),
        L: FnOnce(Point, u32) -> Option<ContextView>,
        C: FnOnce(NormalizedInput, Option<ContextView>, u32),
    requires
        call_requires(route, (input.event,)),
        forall|needed: bool| call_requires(set_needed, (needed,)),
        call_requires(observe, (input.event, input.point, input.timestamp_ns)),
        call_requires(latest, (input.point, input_tick(input))),
        forall|context: Option<ContextView>| call_requires(consume, (input, context, input_tick(input))),
    ensures
        tick == input_tick(input),
        exists|routed: ContextRoute, context: Option<ContextView>|
            #![trigger call_ensures(route, (input.event,), routed), call_ensures(consume, (input, context, input_tick(input)), ())]
            {
                &&& call_ensures(route, (input.event,), routed)
                &&& call_ensures(set_needed, (routed != ContextRoute::Inactive,), ())
                &&& (routed == ContextRoute::Observe ==> call_ensures(
                    observe,
                    (input.event, input.point, input.timestamp_ns),
                    (),
                ))
                &&& (routed == ContextRoute::Inactive ==> context is None)
                &&& (routed != ContextRoute::Inactive ==> call_ensures(
                    latest,
                    (input.point, input_tick(input)),
                    context,
                ))
                &&& call_ensures(consume, (input, context, input_tick(input)), ())
            },
{
    let tick = #[verifier::truncate] ((input.timestamp_ns / 1_000_000) as u32);
    let routed = route(input.event);
    let needed = routed != ContextRoute::Inactive;
    set_needed(needed);
    if routed == ContextRoute::Observe {
        observe(input.event, input.point, input.timestamp_ns);
    }
    let current = if needed {
        latest(input.point, tick)
    } else {
        None
    };
    consume(input, current, tick);
    tick
}

/// Builds the callback state with the process marker, then installs the
/// event tap against it, so that the tap never sees a state without the
/// marker.
pub fn prepare_marked_state<T, I>(marker: i64, install_tap: I) -> (r: (Box<TapState>, T))
    where
        I: FnOnce(&TapState) -> T,
    requires
        forall|state: &TapState| state.marker_spec() == marker ==> call_requires(install_tap, (state,)),
    ensures
        r.0.wf(),
        r.0.marker_spec() == marker,
        r.0.queued() == Seq::<NormalizedInput>::empty(),
        r.0.counters() == (KpiSnapshot {
            received: 0,
            enqueued: 0,
            dropped: 0,
            processed: 0,
            disabled: 0,
        }),
        !r.0.reenable_pending(),
        call_ensures(install_tap, (&*r.0,), r.1),
{
    let state = Box::new(TapState::with_marker(marker));
    let tap = install_tap(&*state);
    (state, tap)
}

/// The marker handed to the action executor: the one the callback state
/// filters on.
pub fn executor_marker(state: &TapState) -> (marker: i64)
    ensures
        marker == state.marker_spec(),
{
    state.marker
}

} // verus!
