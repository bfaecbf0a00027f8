//! The application's log level setting.
use vstd::prelude::*;

verus! {

/// How much the application logs.
#[derive(Clone, Copy, Debug, PartialEq, Eq, Structural)]
pub enum LevelFilter {
    Off,
    Error,
    Warn,
    Info,
    Debug,
    Trace,
}

/// The level used when the setting is missing or not understood.
pub const DEFAULT_LOG_LEVEL: LevelFilter = LevelFilter::Info;

/// A string with leading and trailing Unicode white space removed, as
/// `str::trim` leaves it.
pub uninterp spec fn trimmed(s: Seq<char>) -> Seq<char>;

/// Removes leading and trailing white space.
///
/// Calls `str::trim`; its result is named `trimmed`.
#[verifier::external_body]
fn str_trim(s: &str) -> (r: &str)
    ensures
        r@ == trimmed(s@),
{
    s.trim()
}

/// An ASCII letter in lower case; every other byte unchanged.
pub open spec fn ascii_lower(b: u8) -> u8 {
    if 65 <= b <= 90 {
        (b + 32) as u8
    } else {
        b
    }
}

/// Whether two byte strings are equal once ASCII letters are lowercased.
pub open spec fn ascii_caseless_eq(a: Seq<u8>, b: Seq<u8>) -> bool {
    a.len() == b.len() && forall|i: int| 0 <= i < a.len() ==> ascii_lower(a[i]) == ascii_lower(b[i])
}

fn to_ascii_lower(b: u8) -> (r: u8)
    ensures
        r == ascii_lower(b),
{
    if 65 <= b && b <= 90 {
        b + 32
    } else {
        b
    }
}

fn ascii_caseless_equal(a: &[u8], b: &[u8]) -> (r: bool)
    ensures
        r == ascii_caseless_eq(a@, b@),
{
    if a.len() != b.len() {
        return false;
    }
    let mut i: usize = 0;
    while i < a.len()
        invariant
            0 <= i <= a@.len(),
            a@.len() == b@.len(),
            forall|j: int| 0 <= j < i ==> ascii_lower(a@[j]) == ascii_lower(b@[j]),
        decreases a@.len() - i,
    {
        if to_ascii_lower(a[i]) != to_ascii_lower(b[i]) {
            return false;
        }
        i = i + 1;
    }
    true
}

/// The level a name stands for, ignoring ASCII case: `off`, `error`,
/// `warn`, `info`, `debug` or `trace` (spelled out in ASCII codes).
pub open spec fn level_named(name: Seq<u8>) -> Option<LevelFilter> {
    if ascii_caseless_eq(name, seq![111u8, 102u8, 102u8]) {
        Some(LevelFilter::Off)
    } else if ascii_caseless_eq(name, seq![101u8, 114u8, 114u8, 111u8, 114u8]) {
        Some(LevelFilter::Error)
    } else if ascii_caseless_eq(name, seq![119u8, 97u8, 114u8, 110u8]) {
        Some(LevelFilter::Warn)
    } else if ascii_caseless_eq(name, seq![105u8, 110u8, 102u8, 111u8]) {
        Some(LevelFilter::Info)
    } else if ascii_caseless_eq(name, seq![100u8, 101u8, 98u8, 117u8, 103u8]) {
        Some(LevelFilter::Debug)
    } else if ascii_caseless_eq(name, seq![116u8, 114u8, 97u8, 99u8, 101u8]) {
        Some(LevelFilter::Trace)
    } else {
        None
    }
}

/// The level named by `name`, compared byte for byte ignoring ASCII case.
pub fn level_from_name(name: &str) -> (r: Option<LevelFilter>)
    ensures
        r == level_named(vstd::utf8::encode_utf8(name@)),
{
    let bytes = name.as_bytes();
    let off: [u8; 3] = [111u8, 102u8, 102u8];
    let error: [u8; 5] = [101u8, 114u8, 114u8, 111u8, 114u8];
    let warn: [u8; 4] = [119u8, 97u8, 114u8, 110u8];
    let info: [u8; 4] = [105u8, 110u8, 102u8, 111u8];
    let debug: [u8; 5] = [100u8, 101u8, 98u8, 117u8, 103u8];
    let trace: [u8; 5] = [116u8, 114u8, 97u8, 99u8, 101u8];
    assert(off@ == seq![111u8, 102u8, 102u8]);
    assert(error@ == seq![101u8, 114u8, 114u8, 111u8, 114u8]);
    assert(warn@ == seq![119u8, 97u8, 114u8, 110u8]);
    assert(info@ == seq![105u8, 110u8, 102u8, 111u8]);
    assert(debug@ == seq![100u8, 101u8, 98u8, 117u8, 103u8]);
    assert(trace@ == seq![116u8, 114u8, 97u8, 99u8, 101u8]);
    if ascii_caseless_equal(bytes, &off) {
        Some(LevelFilter::Off)
    } else if ascii_caseless_equal(bytes, &error) {
        Some(LevelFilter::Error)
    } else if ascii_caseless_equal(bytes, &warn) {
        Some(LevelFilter::Warn)
    } else if ascii_caseless_equal(bytes, &info) {
        Some(LevelFilter::Info)
    } else if ascii_caseless_equal(bytes, &debug) {
        Some(LevelFilter::Debug)
    } else if ascii_caseless_equal(bytes, &trace) {
        Some(LevelFilter::Trace)
    } else {
        None
    }
}

/// Parses a log level setting: the level its trimmed text names, ignoring
/// ASCII case, or `None`.
pub fn parse_log_level(value: &str) -> (r: Option<LevelFilter>)
    ensures
        r == level_named(vstd::utf8::encode_utf8(trimmed(value@))),
{
    level_from_name(str_trim(value))
}

/// The log level for a setting that may be absent: the level it names, or
/// the default when it is absent or names none.
pub fn resolve_log_level(setting: Option<&str>) -> (r: LevelFilter)
    ensures
        r == match setting {
            Some(value) => match level_named(vstd::utf8::encode_utf8(trimmed(value@))) {
                Some(level) => level,
                None => DEFAULT_LOG_LEVEL,
            },
            None => DEFAULT_LOG_LEVEL,
        },
{
    match setting {
        Some(value) => match parse_log_level(value) {
            Some(level) => level,
            None => DEFAULT_LOG_LEVEL,
        },
        None => DEFAULT_LOG_LEVEL,
    }
}

} // verus!
