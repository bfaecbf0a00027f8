//! The portable mouse-input vocabulary shared by the native input owners.
use vstd::prelude::*;
use vstd::wrapping::u32_specs::wrapping_sub;

verus! {

/// A screen position in physical pixels.
#[derive(Clone, Copy, Debug, PartialEq, Eq, Structural)]
pub struct Point {
    pub x: i32,
    pub y: i32,
}

impl Point {
    pub fn new(x: i32, y: i32) -> (p: Point)
        ensures
            p.x == x,
            p.y == y,
    {
        Point { x, y }
    }
}

/// Mouse buttons that can start a gesture.
#[derive(Clone, Copy, Debug, PartialEq, Eq, Structural)]
pub enum TriggerButton {
    Left,
    Right,
    Middle,
}

/// A mouse event, decoupled from platform message constants.
#[derive(Clone, Copy, Debug, PartialEq, Eq, Structural)]
pub enum MouseEvent {
    ButtonDown(TriggerButton),
    ButtonUp(TriggerButton),
    MouseMove,
    /// Wheel moved away from the user, by this many notches.
    WheelUp(u16),
    /// Wheel moved toward the user, by this many notches.
    WheelDown(u16),
    Other,
}

/// Whether a native event is passed on or swallowed.
#[derive(Clone, Copy, Debug, PartialEq, Eq, Structural)]
pub enum Disposition {
    Pass,
    Suppress,
}

/// Identity of the window an action is aimed at.
#[derive(Clone, Copy, Debug, PartialEq, Eq, Structural)]
pub struct TargetToken(pub u64);

/// A gesture session of the input kernel.
#[derive(Clone, Copy, Debug, PartialEq, Eq, Structural)]
pub struct SessionId(pub u64);

/// A published configuration generation.
#[derive(Clone, Copy, Debug, PartialEq, Eq, Structural)]
pub struct ConfigGeneration(pub u64);

/// An action of a configuration generation.
#[derive(Clone, Copy, Debug, PartialEq, Eq, Structural)]
pub struct ActionId(pub u32);

/// The binding set (per-application or default) selected for a context.
#[derive(Clone, Copy, Debug, PartialEq, Eq, Structural)]
pub struct BindingSetId(pub u32);

impl BindingSetId {
    /// The binding set with index `index`, if it fits the id space.
    pub fn from_index(index: usize) -> (r: Option<BindingSetId>)
        ensures
            index <= u32::MAX ==> r == Some(BindingSetId(index as u32)),
            index > u32::MAX ==> r is None,
    {
        if index <= 0xFFFF_FFFF {
            Some(BindingSetId(index as u32))
        } else {
            None
        }
    }

    pub fn index(&self) -> (r: usize)
        ensures
            r == self.0,
    {
        self.0 as usize
    }
}

/// The window context resolved for a pointer position.
#[derive(Clone, Copy, Debug, PartialEq, Eq, Structural)]
pub struct ContextView {
    pub generation: u64,
    pub binding_set: BindingSetId,
    pub target: TargetToken,
    pub point: Point,
    pub updated_tick: u32,
}

/// Oldest context, in milliseconds, that may still route an action.
pub const CONTEXT_MAX_AGE_MS: u32 = 100;

/// A point packed into 64 bits: `x` in the high half, `y` in the low half.
pub open spec fn packed_point(p: Point) -> u64 {
    ((p.x as u32 as u64) * 0x1_0000_0000 + (p.y as u32 as u64)) as u64
}

/// Packs a point into one 64-bit word.
pub fn pack_point(point: Point) -> (r: u64)
    ensures
        r == packed_point(point),
        r / 0x1_0000_0000 == point.x as u32,
        r % 0x1_0000_0000 == point.y as u32,
{
    let hi = point.x as u32 as u64;
    let lo = point.y as u32 as u64;
    let r = hi * 0x1_0000_0000 + lo;
    assert(r / 0x1_0000_0000 == hi && r % 0x1_0000_0000 == lo) by (nonlinear_arith)
        requires
            r == hi * 0x1_0000_0000 + lo,
            lo < 0x1_0000_0000,
    ;
    r
}

/// The point a 64-bit word unpacks to: `x` from the high half, `y` from
/// the low half.
pub open spec fn unpacked_point(value: u64) -> Point {
    Point {
        x: (value / 0x1_0000_0000) as u32 as i32,
        y: (value % 0x1_0000_0000) as u32 as i32,
    }
}

/// Unpacks a point packed by `pack_point`.
pub fn unpack_point(value: u64) -> (p: Point)
    ensures
        p == unpacked_point(value),
{
    let hi = (value / 0x1_0000_0000) as u32;
    let lo = (value % 0x1_0000_0000) as u32;
    Point::new(hi as i32, lo as i32)
}

/// Unpacking a packed point gives the point back.
pub proof fn lemma_pack_roundtrip(p: Point)
    ensures
        unpacked_point(packed_point(p)) == p,
{
    let hi = p.x as u32 as u64;
    let lo = p.y as u32 as u64;
    assert(packed_point(p) == hi * 0x1_0000_0000 + lo) by (nonlinear_arith)
        requires
            hi < 0x1_0000_0000,
            lo < 0x1_0000_0000,
            hi == p.x as u32 as u64,
            lo == p.y as u32 as u64,
    ;
    assert((hi * 0x1_0000_0000 + lo) / 0x1_0000_0000 == hi && (hi * 0x1_0000_0000 + lo)
        % 0x1_0000_0000 == lo) by (nonlinear_arith)
        requires
            lo < 0x1_0000_0000,
    ;
    let px = p.x;
    let py = p.y;
    assert(px as u32 as i32 == px) by (bit_vector);
    assert(py as u32 as i32 == py) by (bit_vector);
}

/// Whether the safety timer resets the gesture state machine: only a
/// running gesture session can time out, once more than `timeout_ms` have
/// passed since it began, in wrapping tick arithmetic. `session_entered_tick`
/// is the tick at which the running session began, or `None` when idle.
pub fn check_safety_timeout(session_entered_tick: Option<u32>, tick: u32, timeout_ms: u32) -> (r:
    bool)
    ensures
        r == match session_entered_tick {
            None => false,
            Some(entered_tick) => wrapping_sub(tick, entered_tick) > timeout_ms,
        },
{
    match session_entered_tick {
        None => false,
        Some(entered_tick) => tick.wrapping_sub(entered_tick) > timeout_ms,
    }
}

} // verus!
