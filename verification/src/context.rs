//! Window-context resolution for action routing: when to ask for a new
//! context, which resolved context may still be used, and how the resolver
//! turns what the system reports into a context.
use vstd::prelude::*;
use vstd::utf8::{decode_utf8, valid_utf8};
use vstd::wrapping::u32_specs::wrapping_sub;

use crate::cursor::string_from_utf8;
use crate::text::{lowercase, to_lowercase};
use crate::input::{
    lemma_pack_roundtrip, pack_point, unpack_point, unpacked_point, BindingSetId, ContextView,
    MouseEvent, Point, TargetToken, CONTEXT_MAX_AGE_MS,
};

verus! {

/// Minimum interval, in milliseconds, between two requests for pointer moves.
pub const REQUEST_PERIOD_MS: u32 = 25;

/// Longest context string accepted, in UTF-16 code units.
pub const MAX_CONTEXT_UTF16_UNITS: usize = 512;

/// Longest context string accepted, in UTF-8 bytes.
pub const MAX_CONTEXT_UTF8_BYTES: usize = 2048;

/// A request for the context at a pointer position.
#[derive(Clone, Copy, Debug, PartialEq, Eq, Structural)]
pub struct ContextRequest {
    pub request_id: u64,
    pub point: Point,
    pub tick: u32,
}

/// A process, told apart from a later one with the same pid by its start
/// time.
#[derive(Clone, Copy, Debug, PartialEq, Eq, Structural)]
pub struct ProcessIdentity {
    pub pid: i32,
    pub started_seconds: u64,
    pub started_microseconds: u64,
}

/// The process and focused window a context was resolved for.
#[derive(Clone, Copy, Debug, PartialEq, Eq, Structural)]
pub struct ContextIdentity {
    pub process: ProcessIdentity,
    pub window_fingerprint: u64,
}

/// A context resolved for a request.
#[derive(Clone, Copy, Debug, PartialEq, Eq, Structural)]
pub struct ResolvedContext {
    pub request_id: u64,
    pub view: ContextView,
    pub identity: ContextIdentity,
}

/// Why no context could be resolved.
#[derive(Clone, Copy, Debug, PartialEq, Eq, Structural)]
pub enum ResolveFailure {
    PermissionDenied,
    Accessibility,
    Timeout,
    TargetExited,
    InvalidData,
    Oversized,
    Unavailable,
}

/// `kAXErrorSuccess`.
pub const AX_SUCCESS: i32 = 0;

/// `kAXErrorCannotComplete`: the accessibility query ran out of time.
pub const AX_ERROR_CANNOT_COMPLETE: i32 = -25204;

/// The failure an accessibility error code stands for: none on success, a
/// timeout when the query could not complete, else an accessibility error.
pub fn require_ax(error: i32) -> (r: Result<(), ResolveFailure>)
    ensures
        error == AX_SUCCESS ==> r == Ok::<(), ResolveFailure>(()),
        error == AX_ERROR_CANNOT_COMPLETE ==> r == Err::<(), ResolveFailure>(ResolveFailure::Timeout),
        error != AX_SUCCESS && error != AX_ERROR_CANNOT_COMPLETE ==> r == Err::<(), ResolveFailure>(
            ResolveFailure::Accessibility,
        ),
{
    if error == AX_SUCCESS {
        Ok(())
    } else if error == AX_ERROR_CANNOT_COMPLETE {
        Err(ResolveFailure::Timeout)
    } else {
        Err(ResolveFailure::Accessibility)
    }
}

/// Takes ownership of an element the system created: no element means the
/// target application has gone away.
pub fn retained_application<T>(value: Option<T>) -> (r: Result<T, ResolveFailure>)
    ensures
        match value {
            Some(v) => r == Ok::<T, ResolveFailure>(v),
            None => r == Err::<T, ResolveFailure>(ResolveFailure::TargetExited),
        },
{
    match value {
        Some(v) => Ok(v),
        None => Err(ResolveFailure::TargetExited),
    }
}

/// Whether a pointer event calls for a new context request: a button press
/// always does, a move only once the request period has passed since the
/// last request, nothing else does.
pub open spec fn request_due_spec(last_tick: Option<u32>, event: MouseEvent, tick: u32) -> bool {
    match event {
        MouseEvent::ButtonDown(_) => true,
        MouseEvent::MouseMove => match last_tick {
            None => true,
            Some(last) => wrapping_sub(tick, last) >= REQUEST_PERIOD_MS,
        },
        _ => false,
    }
}

pub fn request_due(last_tick: Option<u32>, event: MouseEvent, tick: u32) -> (r: bool)
    ensures
        r == request_due_spec(last_tick, event, tick),
{
    match event {
        MouseEvent::ButtonDown(_) => true,
        MouseEvent::MouseMove => match last_tick {
            None => true,
            Some(last) => tick.wrapping_sub(last) >= REQUEST_PERIOD_MS,
        },
        _ => false,
    }
}

pub open spec fn rotl64(x: u64, k: u64) -> u64 {
    ((x << k) | (x >> ((64 - k) as u64))) as u64
}

/// The target token of a process identity: a 64-bit mix of its pid and
/// start time. The window fingerprint takes no part.
pub open spec fn target_token_spec(identity: ContextIdentity) -> u64 {
    let process = identity.process;
    let v0 = process.pid as u32 as u64;
    let v1 = v0 ^ rotl64(process.started_seconds, 13);
    let v2 = v1 ^ rotl64(process.started_microseconds, 29);
    let v3 = v2 ^ (v2 >> 30u64);
    let v4 = vstd::wrapping::u64_specs::wrapping_mul(v3, 0xbf58_476d_1ce4_e5b9);
    let v5 = v4 ^ (v4 >> 27u64);
    vstd::wrapping::u64_specs::wrapping_mul(v5, 0x94d0_49bb_1331_11eb) ^ (v5 >> 31u64)
}

fn rotate_left(x: u64, k: u64) -> (r: u64)
    requires
        0 < k < 64,
    ensures
        r == rotl64(x, k),
{
    (x << k) | (x >> (64 - k))
}

pub fn target_token(identity: ContextIdentity) -> (t: TargetToken)
    ensures
        t.0 == target_token_spec(identity),
{
    let process = identity.process;
    let mut value = process.pid as u32 as u64;
    value = value ^ rotate_left(process.started_seconds, 13);
    value = value ^ rotate_left(process.started_microseconds, 29);
    value = value ^ (value >> 30);
    value = value.wrapping_mul(0xbf58_476d_1ce4_e5b9);
    value = value ^ (value >> 27);
    TargetToken(value.wrapping_mul(0x94d0_49bb_1331_11eb) ^ (value >> 31))
}

/// A context string from its UTF-8 bytes: refused as oversized past the
/// limits, as invalid when the conversion lost units or the bytes are not
/// UTF-8.
pub fn bounded_utf8(bytes: &[u8], converted_units: usize, expected_units: usize) -> (r: Result<
    String,
    ResolveFailure,
>)
    ensures
        expected_units > MAX_CONTEXT_UTF16_UNITS || bytes@.len() > MAX_CONTEXT_UTF8_BYTES ==> r
            == Err::<String, ResolveFailure>(ResolveFailure::Oversized),
        !(expected_units > MAX_CONTEXT_UTF16_UNITS || bytes@.len() > MAX_CONTEXT_UTF8_BYTES) ==> {
            &&& (converted_units == expected_units && valid_utf8(bytes@)) <==> r is Ok
            &&& r matches Ok(s) ==> s@ == decode_utf8(bytes@)
            &&& r is Err ==> r == Err::<String, ResolveFailure>(ResolveFailure::InvalidData)
        },
{
    if expected_units > MAX_CONTEXT_UTF16_UNITS || bytes.len() > MAX_CONTEXT_UTF8_BYTES {
        return Err(ResolveFailure::Oversized);
    }
    if converted_units != expected_units {
        return Err(ResolveFailure::InvalidData);
    }
    match string_from_utf8(bytes) {
        Some(text) => Ok(text),
        None => Err(ResolveFailure::InvalidData),
    }
}

/// The bytes after the last `/` of a path.
pub open spec fn last_path_segment(path: Seq<u8>) -> Seq<u8>
    decreases path.len(),
{
    if path.len() == 0 {
        path
    } else if path.last() == 47u8 {
        Seq::empty()
    } else {
        last_path_segment(path.drop_last()).push(path.last())
    }
}

proof fn lemma_last_segment_suffix(path: Seq<u8>, start: int)
    requires
        0 <= start <= path.len(),
        start == 0 || path[start - 1] == 47u8,
        forall|j: int| start <= j < path.len() ==> path[j] != 47u8,
    ensures
        last_path_segment(path) == path.subrange(start, path.len() as int),
    decreases path.len(),
{
    if path.len() == start {
        if path.len() > 0 {
            assert(path.last() == 47u8);
        }
        assert(path.subrange(start, path.len() as int) =~= Seq::<u8>::empty());
    } else {
        lemma_last_segment_suffix(path.drop_last(), start);
        assert(path.subrange(start, path.len() as int) =~= path.drop_last().subrange(
            start,
            path.len() - 1,
        ).push(path.last()));
    }
}

/// The process name of an executable path: its last path segment, which
/// must be nonempty valid UTF-8 within the context limits, lowercased.
pub fn executable_name_from_path(path: &[u8]) -> (r: Result<String, ResolveFailure>)
    ensures
        ({
            let name = last_path_segment(path@);
            &&& name.len() == 0 ==> r == Err::<String, ResolveFailure>(ResolveFailure::InvalidData)
            &&& name.len() > 0 && name.len() > MAX_CONTEXT_UTF16_UNITS ==> r == Err::<
                String,
                ResolveFailure,
            >(ResolveFailure::Oversized)
            &&& 0 < name.len() <= MAX_CONTEXT_UTF16_UNITS ==> {
                &&& r is Ok <==> valid_utf8(name)
                &&& r matches Ok(s) ==> s@ == lowercase(decode_utf8(name))
                &&& r is Err ==> r == Err::<String, ResolveFailure>(ResolveFailure::InvalidData)
            }
        }),
{
    let mut start = path.len();
    while start > 0 && path[start - 1] != 47u8
        invariant
            0 <= start <= path@.len(),
            forall|j: int| start <= j < path@.len() ==> path@[j] != 47u8,
        decreases start,
    {
        start = start - 1;
    }
    proof {
        lemma_last_segment_suffix(path@, start as int);
    }
    let name = vstd::slice::slice_subrange(path, start, path.len());
    if name.len() == 0 {
        return Err(ResolveFailure::InvalidData);
    }
    let text = bounded_utf8(name, name.len(), name.len())?;
    Ok(to_lowercase(text.as_str()))
}

/// The accessibility attribute naming an application's focused window.
pub const FOCUSED_WINDOW_ATTRIBUTE: &'static str = "AXFocusedWindow";

/// The accessibility attribute naming a window's title.
pub const WINDOW_TITLE_ATTRIBUTE: &'static str = "AXTitle";

/// One accessibility query under a messaging timeout: the timeout is set
/// first, and the attribute is read only when that succeeded.
pub fn timed_ax_query<T, S, C>(attribute: &'static str, set_timeout: S, copy_attribute: C) -> (r:
    Result<T, ResolveFailure>)
    where
        S: FnOnce() -> Result<(), ResolveFailure>,
        C: FnOnce(&'static str) -> Result<T, ResolveFailure>,
    requires
        call_requires(set_timeout, ()),
        call_requires(copy_attribute, (attribute,)),
    ensures
        exists|set: Result<(), ResolveFailure>|
            {
                &&& call_ensures(set_timeout, (), set)
                &&& match set {
                    Err(e) => r == Err::<T, ResolveFailure>(e),
                    Ok(_) => call_ensures(copy_attribute, (attribute,), r),
                }
            },
{
    match set_timeout() {
        Ok(()) => copy_attribute(attribute),
        Err(error) => Err(error),
    }
}

/// Which of the two focused-window queries of a resolution is being made.
#[derive(Clone, Copy, Debug, PartialEq, Eq, Structural)]
pub enum FocusQuery {
    /// The query whose window is resolved and titled.
    Initial,
    /// The query made after the title, to see that focus did not move.
    Recheck,
}

/// The outcome once the first window, its title and the second window were
/// all read: the first window with its title when the comparison with the
/// second window held, else `TargetExited`.
pub open spec fn consistent_window_outcome<W, T>(first: W, title: T, same: bool) -> Result<
    (W, T),
    ResolveFailure,
> {
    if same {
        Ok((first, title))
    } else {
        Err(ResolveFailure::TargetExited)
    }
}

/// Decides a resolution from the first window, its title, and whether the
/// first window compared equal to the window focused after the title was
/// read.
pub fn window_consistency<W, T>(first: W, title: T, same: bool) -> (r: Result<(W, T), ResolveFailure>)
    ensures
        r == consistent_window_outcome(first, title, same),
{
    if same {
        Ok((first, title))
    } else {
        Err(ResolveFailure::TargetExited)
    }
}

/// The ways a resolution can end once the first focus query gave `first`:
/// the title query failed; or it gave `title`, and then either the recheck
/// failed, or it gave `second` and `equal` on `first` and `second` decided.
pub open spec fn resolution_after_initial<W, T, F, G, H>(
    focused_window: F,
    window_title: G,
    equal: H,
    first: W,
    r: Result<(W, T), ResolveFailure>,
) -> bool where
    F: FnMut(FocusQuery) -> Result<W, ResolveFailure>,
    G: FnOnce(&W) -> Result<T, ResolveFailure>,
    H: FnOnce(&W, &W) -> bool,
 {
    ||| r matches Err(e) && call_ensures(window_title, (&first,), Err::<T, ResolveFailure>(e))
    ||| exists|title: T|
        #![trigger call_ensures(window_title, (&first,), Ok::<T, ResolveFailure>(title))]
        {
            &&& call_ensures(window_title, (&first,), Ok::<T, ResolveFailure>(title))
            &&& {
                ||| r matches Err(e) && call_ensures(
                    focused_window,
                    (FocusQuery::Recheck,),
                    Err::<W, ResolveFailure>(e),
                )
                ||| exists|second: W, same: bool|
                    #![trigger call_ensures(focused_window, (FocusQuery::Recheck,), Ok::<W, ResolveFailure>(second)), call_ensures(equal, (&first, &second), same)]
                    {
                        &&& call_ensures(
                            focused_window,
                            (FocusQuery::Recheck,),
                            Ok::<W, ResolveFailure>(second),
                        )
                        &&& call_ensures(equal, (&first, &second), same)
                        &&& r == consistent_window_outcome(first, title, same)
                    }
            }
        }
}

/// Queries the focused window, its title, and the focused window again;
/// the pair only when `equal` found the two focused windows the same, else
/// `TargetExited`. A failed query ends the resolution with its error.
pub fn resolve_consistent_window<W, T, F, G, H>(
    mut focused_window: F,
    window_title: G,
    equal: H,
) -> (r: Result<(W, T), ResolveFailure>)
    where
        F: FnMut(FocusQuery) -> Result<W, ResolveFailure>,
        G: FnOnce(&W) -> Result<T, ResolveFailure>,
        H: FnOnce(&W, &W) -> bool,
    requires
        call_requires(focused_window, (FocusQuery::Initial,)),
        call_requires(focused_window, (FocusQuery::Recheck,)),
        forall|w: &W| call_requires(window_title, (w,)),
        forall|a: &W, b: &W| call_requires(equal, (a, b)),
    ensures
        ({
            ||| r matches Err(e) && call_ensures(
                focused_window,
                (FocusQuery::Initial,),
                Err::<W, ResolveFailure>(e),
            )
            ||| exists|first: W|
                #![trigger call_ensures(focused_window, (FocusQuery::Initial,), Ok::<W, ResolveFailure>(first))]
                {
                    &&& call_ensures(focused_window, (FocusQuery::Initial,), Ok::<W, ResolveFailure>(first))
                    &&& resolution_after_initial(focused_window, window_title, equal, first, r)
                }
        }),
{
    let window = focused_window(FocusQuery::Initial)?;
    let title = window_title(&window)?;
    let current = focused_window(FocusQuery::Recheck)?;
    let same = equal(&window, &current);
    window_consistency(window, title, same)
}

/// A resolution that took longer than the freshness bound is a timeout.
pub fn discard_slow_resolution<R>(resolution: Result<R, ResolveFailure>, elapsed_nanos: u128) -> (r:
    Result<R, ResolveFailure>)
    ensures
        elapsed_nanos > CONTEXT_MAX_AGE_MS as u128 * 1_000_000 ==> r == Err::<R, ResolveFailure>(
            ResolveFailure::Timeout,
        ),
        elapsed_nanos <= CONTEXT_MAX_AGE_MS as u128 * 1_000_000 ==> r == resolution,
{
    if elapsed_nanos > CONTEXT_MAX_AGE_MS as u128 * 1_000_000 {
        Err(ResolveFailure::Timeout)
    } else {
        resolution
    }
}

/// Whether context sampled at `sampled_tick` is still fresh at `resolved_tick`.
pub fn context_resolution_is_fresh(sampled_tick: u32, resolved_tick: u32) -> (r: bool)
    ensures
        r == (wrapping_sub(resolved_tick, sampled_tick) <= CONTEXT_MAX_AGE_MS),
{
    resolved_tick.wrapping_sub(sampled_tick) <= CONTEXT_MAX_AGE_MS
}

/// A published context may route an action only at its exact point and
/// while fresh.
pub open spec fn usable_snapshot(cached: Option<ResolvedContext>, point: Point, tick: u32) -> Option<
    ResolvedContext,
> {
    match cached {
        Some(c) => if c.view.point == point && wrapping_sub(tick, c.view.updated_tick)
            <= CONTEXT_MAX_AGE_MS {
            Some(c)
        } else {
            None
        },
        None => None,
    }
}

/// The latest context request of the input owner, as the fields the
/// resolver reads.
pub struct RequestMailbox {
    request_id: u64,
    point: u64,
    tick: u32,
}

impl RequestMailbox {
    /// The request a read returns.
    pub closed spec fn current(&self) -> ContextRequest {
        ContextRequest {
            request_id: self.request_id,
            point: unpacked_point(self.point),
            tick: self.tick,
        }
    }

    pub fn new() -> (m: Self)
        ensures
            m.current() == (ContextRequest { request_id: 0, point: Point { x: 0, y: 0 }, tick: 0 }),
    {
        RequestMailbox { request_id: 0, point: 0, tick: 0 }
    }

    /// Replaces the pending request; only the latest one is kept.
    pub fn publish(&mut self, request: ContextRequest)
        ensures
            final(self).current() == request,
    {
        self.request_id = request.request_id;
        self.point = pack_point(request.point);
        self.tick = request.tick;
        proof {
            lemma_pack_roundtrip(request.point);
        }
    }

    /// The latest published request.
    pub fn latest(&self) -> (r: ContextRequest)
        ensures
            r == self.current(),
    {
        ContextRequest {
            request_id: self.request_id,
            point: unpack_point(self.point),
            tick: self.tick,
        }
    }
}

/// The most recently resolved context, as the fields the resolver writes.
pub struct SnapshotMailbox {
    valid: bool,
    request_id: u64,
    generation: u64,
    binding_set: u64,
    target: u64,
    point: u64,
    tick: u32,
    pid: i32,
    started_seconds: u64,
    started_microseconds: u64,
    window_fingerprint: u64,
}

impl SnapshotMailbox {
    /// The resolved context the mailbox holds, if any.
    pub closed spec fn current(&self) -> Option<ResolvedContext> {
        if !self.valid || self.binding_set > u32::MAX {
            None
        } else {
            Some(
                ResolvedContext {
                    request_id: self.request_id,
                    view: ContextView {
                        generation: self.generation,
                        binding_set: BindingSetId(self.binding_set as u32),
                        target: TargetToken(self.target),
                        point: unpacked_point(self.point),
                        updated_tick: self.tick,
                    },
                    identity: ContextIdentity {
                        process: ProcessIdentity {
                            pid: self.pid,
                            started_seconds: self.started_seconds,
                            started_microseconds: self.started_microseconds,
                        },
                        window_fingerprint: self.window_fingerprint,
                    },
                },
            )
        }
    }

    pub fn new() -> (m: Self)
        ensures
            m.current() is None,
    {
        SnapshotMailbox {
            valid: false,
            request_id: 0,
            generation: 0,
            binding_set: 0,
            target: 0,
            point: 0,
            tick: 0,
            pid: 0,
            started_seconds: 0,
            started_microseconds: 0,
            window_fingerprint: 0,
        }
    }

    /// Replaces the held context; `None` clears it.
    pub fn publish(&mut self, context: Option<ResolvedContext>)
        ensures
            final(self).current() == context,
    {
        match context {
            Some(context) => {
                let view = context.view;
                let identity = context.identity;
                self.request_id = context.request_id;
                self.generation = view.generation;
                self.binding_set = view.binding_set.index() as u64;
                self.target = view.target.0;
                self.point = pack_point(view.point);
                self.tick = view.updated_tick;
                self.pid = identity.process.pid;
                self.started_seconds = identity.process.started_seconds;
                self.started_microseconds = identity.process.started_microseconds;
                self.window_fingerprint = identity.window_fingerprint;
                self.valid = true;
                proof {
                    lemma_pack_roundtrip(view.point);
                }
            },
            None => {
                self.valid = false;
            },
        }
    }

    /// The held context, when it was resolved at exactly `point` and is
    /// still fresh at `tick`.
    pub fn latest(&self, point: Point, tick: u32) -> (r: Option<ResolvedContext>)
        ensures
            r == usable_snapshot(self.current(), point, tick),
    {
        if self.binding_set > 0xFFFF_FFFF {
            return None;
        }
        let binding_set = match BindingSetId::from_index(self.binding_set as usize) {
            Some(binding_set) => binding_set,
            None => {
                return None;
            },
        };
        let cached_point = unpack_point(self.point);
        if !self.valid || cached_point != point || tick.wrapping_sub(self.tick) > CONTEXT_MAX_AGE_MS {
            return None;
        }
        Some(
            ResolvedContext {
                request_id: self.request_id,
                view: ContextView {
                    generation: self.generation,
                    binding_set,
                    target: TargetToken(self.target),
                    point: cached_point,
                    updated_tick: self.tick,
                },
                identity: ContextIdentity {
                    process: ProcessIdentity {
                        pid: self.pid,
                        started_seconds: self.started_seconds,
                        started_microseconds: self.started_microseconds,
                    },
                    window_fingerprint: self.window_fingerprint,
                },
            },
        )
    }
}

/// Publishes the outcome of a resolution: the context, or nothing after a
/// failure.
pub fn publish_resolution(mailbox: &mut SnapshotMailbox, resolution: Result<ResolvedContext, ResolveFailure>)
    ensures
        final(mailbox).current() == match resolution {
            Ok(c) => Some(c),
            Err(_) => None::<ResolvedContext>,
        },
{
    match resolution {
        Ok(context) => mailbox.publish(Some(context)),
        Err(_) => mailbox.publish(None),
    }
}

/// A failed resolution leaves no context to route with, at any point and
/// any tick.
pub proof fn lemma_failure_clears_context(
    mailbox: SnapshotMailbox,
    failure: ResolveFailure,
    point: Point,
    tick: u32,
)
    requires
        mailbox.current() == match Err::<ResolvedContext, ResolveFailure>(failure) {
            Ok(c) => Some(c),
            Err(_) => None::<ResolvedContext>,
        },
    ensures
        usable_snapshot(mailbox.current(), point, tick) is None,
{
}

/// Two contexts of one process get one target token, whatever their
/// windows.
pub proof fn lemma_target_token_ignores_window(a: ContextIdentity, b: ContextIdentity)
    requires
        a.process == b.process,
    ensures
        target_token_spec(a) == target_token_spec(b),
{
}

/// The owner-side bookkeeping of context requests: when to request, and
/// which published results are recent enough to use.
pub struct ContextRequester {
    last_request_tick: Option<u32>,
    next_request_id: u64,
    minimum_request_id: u64,
    needed: bool,
}

impl ContextRequester {
    pub closed spec fn is_needed(&self) -> bool {
        self.needed
    }

    /// Id of the last request made.
    pub closed spec fn last_id(&self) -> u64 {
        self.next_request_id
    }

    /// Results of requests up to this id are stale.
    pub closed spec fn minimum_id(&self) -> u64 {
        self.minimum_request_id
    }

    pub closed spec fn last_tick(&self) -> Option<u32> {
        self.last_request_tick
    }

    pub closed spec fn wf(&self) -> bool {
        self.minimum_request_id <= self.next_request_id || self.minimum_request_id == u64::MAX
    }

    pub fn new() -> (s: Self)
        ensures
            s.wf(),
            s.is_needed(),
            s.last_id() == 0,
            s.minimum_id() == 0,
            s.last_tick() is None,
    {
        ContextRequester {
            last_request_tick: None,
            next_request_id: 0,
            minimum_request_id: 0,
            needed: true,
        }
    }

    /// Switches context resolution on or off; switching off makes every
    /// result requested so far stale.
    pub fn set_needed(&mut self, needed: bool)
        requires
            old(self).wf(),
        ensures
            final(self).wf(),
            final(self).is_needed() == needed,
            final(self).last_id() == old(self).last_id(),
            old(self).is_needed() == needed ==> *final(self) == *old(self),
            old(self).is_needed() != needed ==> final(self).last_tick() is None,
            old(self).is_needed() != needed && !needed ==> final(self).minimum_id() == old(
                self,
            ).last_id(),
            old(self).is_needed() != needed && needed ==> final(self).minimum_id() == old(
                self,
            ).minimum_id(),
    {
        if self.needed == needed {
            return;
        }
        self.needed = needed;
        self.last_request_tick = None;
        if !needed {
            self.minimum_request_id = self.next_request_id;
        }
    }

    /// The request to publish for a pointer event, if one is due.
    pub fn observe(&mut self, event: MouseEvent, point: Point, timestamp_ns: u64) -> (r: Option<
        ContextRequest,
    >)
        requires
            old(self).wf(),
        ensures
            final(self).wf(),
            final(self).is_needed() == old(self).is_needed(),
            ({
                let tick = (timestamp_ns / 1_000_000) as u32;
                if !old(self).is_needed() || !request_due_spec(old(self).last_tick(), event, tick) {
                    &&& r is None
                    &&& *final(self) == *old(self)
                } else if old(self).last_id() == u64::MAX {
                    &&& r is None
                    &&& final(self).minimum_id() == u64::MAX
                } else {
                    &&& r == Some(
                        ContextRequest { request_id: (old(self).last_id() + 1) as u64, point, tick },
                    )
                    &&& final(self).last_id() == old(self).last_id() + 1
                    &&& final(self).minimum_id() == old(self).minimum_id()
                    &&& final(self).last_tick() == Some(tick)
                }
            }),
    {
        if !self.needed {
            return None;
        }
        let tick = (timestamp_ns / 1_000_000) as u32;
        if request_due(self.last_request_tick, event, tick) {
            if self.next_request_id == u64::MAX {
                self.minimum_request_id = u64::MAX;
                return None;
            }
            self.next_request_id = self.next_request_id + 1;
            self.last_request_tick = Some(tick);
            Some(ContextRequest { request_id: self.next_request_id, point, tick })
        } else {
            None
        }
    }

    /// The context to route with, from the latest published result: none
    /// when not needed, stale, at another point, or too old.
    pub fn latest(&self, snapshots: &SnapshotMailbox, point: Point, tick: u32) -> (r: Option<
        ContextView,
    >)
        ensures
            r == routed_view(*self, snapshots.current(), point, tick),
    {
        if !self.needed {
            return None;
        }
        match snapshots.latest(point, tick) {
            Some(context) => {
                if context.request_id > self.minimum_request_id {
                    Some(context.view)
                } else {
                    None
                }
            },
            None => None,
        }
    }
}

/// The view an action is routed with: the held result, while context is
/// needed, when it is usable at `point` and `tick` and answers a request
/// made after the last invalidation.
pub open spec fn routed_view(
    requester: ContextRequester,
    snapshot: Option<ResolvedContext>,
    point: Point,
    tick: u32,
) -> Option<ContextView> {
    if !requester.is_needed() {
        None
    } else {
        match usable_snapshot(snapshot, point, tick) {
            Some(c) => if c.request_id > requester.minimum_id() {
                Some(c.view)
            } else {
                None
            },
            None => None,
        }
    }
}

/// A result of a request made before context was last switched off is
/// never routed with, wherever and whenever it is asked for.
pub proof fn lemma_invalidated_result_is_never_routed(
    requester: ContextRequester,
    result: ResolvedContext,
    point: Point,
    tick: u32,
)
    requires
        result.request_id <= requester.minimum_id(),
    ensures
        routed_view(requester, Some(result), point, tick) is None,
{
}

/// The most recently published context of the Windows input owner, stored
/// as the fields the sampler writes.
pub struct ContextMailbox {
    valid: bool,
    generation: u64,
    binding_set: u64,
    target: u64,
    point: u64,
    tick: u32,
}

impl ContextMailbox {
    /// The value a read returns.
    pub closed spec fn current(&self) -> Option<ContextView> {
        if !self.valid || self.binding_set > u32::MAX {
            None
        } else {
            Some(
                ContextView {
                    generation: self.generation,
                    binding_set: BindingSetId(self.binding_set as u32),
                    target: TargetToken(self.target),
                    point: unpacked_point(self.point),
                    updated_tick: self.tick,
                },
            )
        }
    }

    pub fn new() -> (m: Self)
        ensures
            m.current() is None,
    {
        ContextMailbox { valid: false, generation: 0, binding_set: 0, target: 0, point: 0, tick: 0 }
    }

    /// Replaces the published context.
    pub fn publish(&mut self, context: Option<ContextView>)
        ensures
            final(self).current() == context,
    {
        match context {
            Some(context) => {
                self.generation = context.generation;
                self.binding_set = context.binding_set.index() as u64;
                self.target = context.target.0;
                self.point = pack_point(context.point);
                self.tick = context.updated_tick;
                self.valid = true;
                proof {
                    lemma_pack_roundtrip(context.point);
                }
            },
            None => {
                self.valid = false;
            },
        }
    }

    /// The published context, if any.
    pub fn read(&self) -> (r: Option<ContextView>)
        ensures
            r == self.current(),
    {
        if !self.valid || self.binding_set > 0xFFFF_FFFF {
            return None;
        }
        match BindingSetId::from_index(self.binding_set as usize) {
            Some(binding_set) => {
                let point = unpack_point(self.point);
                Some(
                    ContextView {
                        generation: self.generation,
                        binding_set,
                        target: TargetToken(self.target),
                        point,
                        updated_tick: self.tick,
                    },
                )
            },
            None => None,
        }
    }
}

} // verus!
