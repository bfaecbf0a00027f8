//! Matching the foreground window against the configured applications.
//!
//! Matchers are compiled once, so that the hot path only compares strings
//! or runs a precompiled regular expression.
use vstd::prelude::*;

use crate::text::{is_substring, lowercase, str_contains, text_equal, to_lowercase};

verus! {

#[verifier::external_type_specification]
#[verifier::external_body]
pub struct ExRegex(regex::Regex);

#[verifier::external_type_specification]
#[verifier::external_body]
pub struct ExRegexError(regex::Error);

/// Whether `regex::Regex::new` accepts a pattern (valid syntax, within the
/// default size limit).
pub uninterp spec fn regex_compiles(pattern: Seq<char>) -> bool;

/// Whether the regex compiled from `pattern` matches anywhere in `haystack`.
pub uninterp spec fn regex_matches(pattern: Seq<char>, haystack: Seq<char>) -> bool;

/// Compiles a regular expression.
///
/// Calls `regex::Regex::new`, which succeeds exactly on the patterns named
/// by `regex_compiles`; what the compiled value holds is not stated.
#[verifier::external_body]
fn regex_new(pattern: &str) -> (r: Result<regex::Regex, regex::Error>)
    ensures
        r is Ok <==> regex_compiles(pattern@),
{
    regex::Regex::new(pattern)
}

/// Which property of the foreground window a matcher looks at.
#[derive(Clone, Copy, Debug, PartialEq, Eq, Structural)]
pub enum MatchTarget {
    ProcessName,
    WindowClass,
    Title,
}

/// How a matcher compares its value.
#[derive(Clone, Copy, Debug, PartialEq, Eq, Structural)]
pub enum MatchMethod {
    Exact,
    Contains,
    Regex,
}

/// A configured application matcher.
#[derive(Clone, Debug)]
pub struct AppMatcher {
    pub target: MatchTarget,
    pub method: MatchMethod,
    pub value: String,
}

/// What is known of the foreground window.
#[derive(Clone, Debug)]
pub struct ForegroundWindowInfo {
    pub process_name: Option<String>,
    pub window_class: Option<String>,
    pub title: Option<String>,
}

/// A regular expression together with the pattern it was compiled from.
///
/// The fields are private and `new` is the only constructor, so `regex` is
/// always the compilation of `pattern`.
#[derive(Debug)]
pub struct CompiledRegex {
    pattern: String,
    regex: regex::Regex,
}

impl CompiledRegex {
    /// The pattern the regex was compiled from.
    pub closed spec fn pattern(&self) -> Seq<char> {
        self.pattern@
    }

    /// Compiles `pattern`; `None` when the regex engine refuses it.
    pub fn new(pattern: &str) -> (r: Option<CompiledRegex>)
        ensures
            r is Some <==> regex_compiles(pattern@),
            r matches Some(c) ==> c.pattern() == pattern@,
    {
        match regex_new(pattern) {
            Ok(regex) => Some(CompiledRegex { pattern: pattern.to_owned(), regex }),
            Err(_) => None,
        }
    }

    /// Whether the regex matches anywhere in `haystack`.
    ///
    /// Calls `regex::Regex::is_match` on the regex compiled from
    /// `pattern()`; its answer is named `regex_matches`.
    #[verifier::external_body]
    pub(crate) fn is_match(&self, haystack: &str) -> (r: bool)
        ensures
            r == regex_matches(self.pattern(), haystack@),
    {
        self.regex.is_match(haystack)
    }
}

/// Matching logic prepared from a matcher's value.
#[derive(Debug)]
pub enum CompiledMatchLogic {
    /// Exact, case-insensitive: the value is stored lowercased.
    ExactCaseInsensitive(String),
    /// Exact, case-sensitive: the value as configured.
    ExactCaseSensitive(String),
    /// Substring, case-insensitive: the value is stored lowercased.
    Contains(String),
    /// Regular-expression search.
    Regex(CompiledRegex),
}

/// A compiled matcher: a target and its prepared logic.
#[derive(Debug)]
pub struct CompiledMatcher {
    pub target: MatchTarget,
    pub logic: CompiledMatchLogic,
}

/// A compiled application: its id and matchers, any one of which selects it.
#[derive(Debug)]
pub struct CompiledApp {
    pub id: String,
    pub matchers: Vec<CompiledMatcher>,
}

/// The window property a target selects, if the window reported it.
pub open spec fn target_value(info: ForegroundWindowInfo, target: MatchTarget) -> Option<Seq<char>> {
    let value = match target {
        MatchTarget::ProcessName => info.process_name,
        MatchTarget::WindowClass => info.window_class,
        MatchTarget::Title => info.title,
    };
    match value {
        Some(s) => Some(s@),
        None => None,
    }
}

/// Whether prepared logic accepts a window property.
pub open spec fn logic_matches(logic: CompiledMatchLogic, value: Seq<char>) -> bool {
    match logic {
        CompiledMatchLogic::ExactCaseInsensitive(pattern) => lowercase(value) == pattern@,
        CompiledMatchLogic::ExactCaseSensitive(pattern) => value == pattern@,
        CompiledMatchLogic::Contains(pattern) => is_substring(pattern@, lowercase(value)),
        CompiledMatchLogic::Regex(regex) => regex_matches(regex.pattern(), value),
    }
}

/// Whether a matcher accepts a window: its property must be known and
/// accepted by the logic.
pub open spec fn matcher_matches(matcher: CompiledMatcher, info: ForegroundWindowInfo) -> bool {
    match target_value(info, matcher.target) {
        Some(value) => logic_matches(matcher.logic, value),
        None => false,
    }
}

/// Whether any matcher of an application accepts a window.
pub open spec fn app_matches(app: CompiledApp, info: ForegroundWindowInfo) -> bool {
    exists|k: int| 0 <= k < app.matchers@.len() && #[trigger] matcher_matches(app.matchers@[k], info)
}

/// Whether `pattern` appears in `text` starting at position `start`, one
/// character after another.
pub open spec fn occurs_at(pattern: Seq<char>, text: Seq<char>, start: int) -> bool {
    &&& 0 <= start
    &&& start + pattern.len() <= text.len()
    &&& forall|j: int| 0 <= j < pattern.len() ==> #[trigger] text[start + j] == pattern[j]
}

/// What each kind of matcher accepts, for a window that reports the
/// targeted property `value`: an exact case-insensitive matcher exactly the
/// values whose lowercase form is its pattern (so never one whose lowercase
/// form is longer or shorter); an exact case-sensitive matcher exactly its
/// pattern; a substring matcher exactly the values whose lowercase form
/// holds the pattern at some position. A window that does not report the
/// targeted property is never accepted.
pub proof fn lemma_matcher_semantics(matcher: CompiledMatcher, info: ForegroundWindowInfo)
    ensures
        target_value(info, matcher.target) is None ==> !matcher_matches(matcher, info),
        target_value(info, matcher.target) matches Some(value) ==> match matcher.logic {
            CompiledMatchLogic::ExactCaseInsensitive(pattern) => {
                &&& matcher_matches(matcher, info) <==> lowercase(value) == pattern@
                &&& lowercase(value).len() != pattern@.len() ==> !matcher_matches(matcher, info)
            },
            CompiledMatchLogic::ExactCaseSensitive(pattern) => matcher_matches(matcher, info) <==> value
                == pattern@,
            CompiledMatchLogic::Contains(pattern) => matcher_matches(matcher, info) <==> exists|
                start: int,
            | #[trigger] occurs_at(pattern@, lowercase(value), start),
            CompiledMatchLogic::Regex(regex) => matcher_matches(matcher, info) <==> regex_matches(
                regex.pattern(),
                value,
            ),
        },
{
    if let Some(value) = target_value(info, matcher.target) {
        if let CompiledMatchLogic::Contains(pattern) = matcher.logic {
            let low = lowercase(value);
            let p = pattern@;
            if is_substring(p, low) {
                let start = choose|start: int|
                    0 <= start && start + p.len() <= low.len() && #[trigger] low.subrange(
                        start,
                        start + p.len(),
                    ) == p;
                assert forall|j: int| 0 <= j < p.len() implies #[trigger] low[start + j] == p[j] by {
                    assert(low.subrange(start, start + p.len())[j] == low[start + j]);
                }
                assert(occurs_at(p, low, start));
            }
            if exists|start: int| #[trigger] occurs_at(p, low, start) {
                let start = choose|start: int| #[trigger] occurs_at(p, low, start);
                assert forall|j: int| 0 <= j < p.len() implies low.subrange(start, start + p.len())[j]
                    == p[j] by {
                    assert(low[start + j] == p[j]);
                }
                assert(low.subrange(start, start + p.len()) =~= p);
            }
        }
    }
}

fn selected_value<'a>(info: &'a ForegroundWindowInfo, target: MatchTarget) -> (r: Option<&'a str>)
    ensures
        match target_value(*info, target) {
            Some(v) => r is Some && r->0@ == v,
            None => r is None,
        },
{
    let value = match target {
        MatchTarget::ProcessName => &info.process_name,
        MatchTarget::WindowClass => &info.window_class,
        MatchTarget::Title => &info.title,
    };
    match value {
        Some(s) => Some(s.as_str()),
        None => None,
    }
}

impl CompiledMatcher {
    /// Whether this matcher accepts the window.
    pub fn matches(&self, info: &ForegroundWindowInfo) -> (r: bool)
        ensures
            r == matcher_matches(*self, *info),
    {
        let value = match selected_value(info, self.target) {
            Some(v) => v,
            None => {
                return false;
            },
        };
        match &self.logic {
            CompiledMatchLogic::ExactCaseInsensitive(pattern) => {
                let lowered = to_lowercase(value);
                lowered == *pattern
            },
            CompiledMatchLogic::ExactCaseSensitive(pattern) => text_equal(value, pattern.as_str()),
            CompiledMatchLogic::Contains(pattern) => {
                let lowered = to_lowercase(value);
                str_contains(lowered.as_str(), pattern.as_str())
            },
            CompiledMatchLogic::Regex(regex) => regex.is_match(value),
        }
    }
}

/// The id of the first application any of whose matchers accepts the
/// window, or `None` when none does.
pub fn match_app<'a>(apps: &'a [CompiledApp], info: &ForegroundWindowInfo) -> (r: Option<&'a str>)
    ensures
        match r {
            None => forall|i: int| 0 <= i < apps@.len() ==> !app_matches(#[trigger] apps@[i], *info),
            Some(id) => exists|i: int|
                0 <= i < apps@.len() && app_matches(#[trigger] apps@[i], *info) && id@
                    == apps@[i].id@ && forall|j: int|
                    0 <= j < i ==> !app_matches(#[trigger] apps@[j], *info),
        },
{
    let mut i: usize = 0;
    while i < apps.len()
        invariant
            0 <= i <= apps@.len(),
            forall|j: int| 0 <= j < i ==> !app_matches(#[trigger] apps@[j], *info),
        decreases apps@.len() - i,
    {
        let app = &apps[i];
        let mut k: usize = 0;
        let mut found = false;
        while !found && k < app.matchers.len()
            invariant
                0 <= k <= app.matchers@.len(),
                !found ==> forall|l: int| 0 <= l < k ==> !matcher_matches(#[trigger] app.matchers@[l], *info),
                found ==> app_matches(*app, *info),
            decreases app.matchers@.len() - k + (if found { 0int } else { 1int }),
        {
            if app.matchers[k].matches(info) {
                found = true;
            } else {
                k = k + 1;
            }
        }
        if found {
            return Some(app.id.as_str());
        }
        assert(!app_matches(apps@[i as int], *info));
        i = i + 1;
    }
    None
}

/// The compiled form of a matcher, or `None` when its regular expression
/// does not compile.
///
/// Exact matching ignores case on process names and titles and respects it
/// on window classes; substring matching always ignores case.
pub fn compile_matcher(m: &AppMatcher) -> (r: Option<CompiledMatcher>)
    ensures
        m.method == MatchMethod::Regex ==> (r is Some <==> regex_compiles(m.value@)),
        m.method != MatchMethod::Regex ==> r is Some,
        r matches Some(c) ==> c.target == m.target && match c.logic {
            CompiledMatchLogic::ExactCaseInsensitive(p) => m.method == MatchMethod::Exact
                && m.target != MatchTarget::WindowClass && p@ == lowercase(m.value@),
            CompiledMatchLogic::ExactCaseSensitive(p) => m.method == MatchMethod::Exact
                && m.target == MatchTarget::WindowClass && p@ == m.value@,
            CompiledMatchLogic::Contains(p) => m.method == MatchMethod::Contains && p@ == lowercase(
                m.value@,
            ),
            CompiledMatchLogic::Regex(regex) => m.method == MatchMethod::Regex && regex.pattern()
                == m.value@,
        },
{
    let logic = match m.method {
        MatchMethod::Exact => {
            if m.target == MatchTarget::WindowClass {
                CompiledMatchLogic::ExactCaseSensitive(m.value.clone())
            } else {
                CompiledMatchLogic::ExactCaseInsensitive(to_lowercase(m.value.as_str()))
            }
        },
        MatchMethod::Contains => CompiledMatchLogic::Contains(to_lowercase(m.value.as_str())),
        MatchMethod::Regex => match CompiledRegex::new(m.value.as_str()) {
            Some(regex) => CompiledMatchLogic::Regex(regex),
            None => {
                return None;
            },
        },
    };
    Some(CompiledMatcher { target: m.target, logic })
}

} // verus!
