//! Gesture binding resolution: which configured binding a finished or held
//! gesture selects. The bindings of the matched application take precedence;
//! the `"default"` set answers when the application has none that fits.
use vstd::prelude::*;

use crate::input::TriggerButton;
use crate::text::text_equal;

verus! {

/// Id of the binding set that applies to every application.
pub const DEFAULT_BINDING_SET: &'static str = "default";

/// A recognized gesture step (a stroke direction, a click or a wheel notch),
/// identified by the code the configuration compiles it to. Bindings compare
/// steps only for equality.
#[derive(Clone, Copy, Debug, PartialEq, Eq, Structural)]
pub struct GestureStep(pub u16);

/// A binding that fires when a gesture started with `trigger` ends after
/// exactly `sequence`.
#[derive(Clone, Debug)]
pub struct CompiledGestureBinding<A> {
    pub trigger: TriggerButton,
    pub sequence: Vec<GestureStep>,
    pub action: A,
    pub label: String,
}

/// A binding that fires on `step` while the trigger is held, after
/// `sequence`; an empty `sequence` fires after any sequence.
#[derive(Clone, Debug)]
pub struct CompiledHoldBinding<A> {
    pub trigger: TriggerButton,
    pub sequence: Vec<GestureStep>,
    pub step: GestureStep,
    pub action: A,
    pub label: String,
}

/// The bindings configured for one application, in configuration order.
#[derive(Clone, Debug)]
pub struct AppBindingSet<A> {
    pub release_bindings: Vec<CompiledGestureBinding<A>>,
    pub hold_bindings: Vec<CompiledHoldBinding<A>>,
}

/// The configuration the hook reads, copied out once at startup.
/// `binding_sets` holds each application's bindings under its id, with the
/// `"default"` set among them.
#[derive(Clone, Debug)]
pub struct HookConfig<A> {
    pub safety_timeout_ms: u32,
    pub min_segment_px: i32,
    pub direction_switch_confirm_px: i32,
    pub axis_ambiguity_deadzone_px: i32,
    pub replay_distance_threshold_px: i32,
    pub max_gesture_steps: usize,
    pub binding_sets: Vec<(String, AppBindingSet<A>)>,
}

/// An index as a mathematical integer.
pub open spec fn index_view(r: Option<usize>) -> Option<int> {
    match r {
        Some(i) => Some(i as int),
        None => None,
    }
}

/// The characters of the matched application id, if any.
pub open spec fn app_view(matched_app: Option<&str>) -> Option<Seq<char>> {
    match matched_app {
        Some(id) => Some(id@),
        None => None,
    }
}

/// The first binding set at or after `start` stored under `id`.
pub open spec fn set_index_from<A>(sets: Seq<(String, AppBindingSet<A>)>, id: Seq<char>, start: int) -> Option<
    int,
>
    decreases sets.len() - start,
{
    if start < 0 || start >= sets.len() {
        None
    } else if sets[start].0@ == id {
        Some(start)
    } else {
        set_index_from(sets, id, start + 1)
    }
}

/// The binding set stored under `id`.
pub open spec fn set_index<A>(sets: Seq<(String, AppBindingSet<A>)>, id: Seq<char>) -> Option<int> {
    set_index_from(sets, id, 0)
}

pub open spec fn release_matches<A>(
    binding: CompiledGestureBinding<A>,
    trigger: TriggerButton,
    sequence: Seq<GestureStep>,
) -> bool {
    binding.trigger == trigger && binding.sequence@ == sequence
}

/// The first release binding at or after `start` that fits.
pub open spec fn first_release_from<A>(
    bindings: Seq<CompiledGestureBinding<A>>,
    trigger: TriggerButton,
    sequence: Seq<GestureStep>,
    start: int,
) -> Option<int>
    decreases bindings.len() - start,
{
    if start < 0 || start >= bindings.len() {
        None
    } else if release_matches(bindings[start], trigger, sequence) {
        Some(start)
    } else {
        first_release_from(bindings, trigger, sequence, start + 1)
    }
}

pub open spec fn hold_matches<A>(
    binding: CompiledHoldBinding<A>,
    trigger: TriggerButton,
    sequence: Seq<GestureStep>,
    step: GestureStep,
) -> bool {
    binding.trigger == trigger && binding.step == step && binding.sequence@ == sequence
}

/// The first hold binding at or after `start` that fits.
pub open spec fn first_hold_from<A>(
    bindings: Seq<CompiledHoldBinding<A>>,
    trigger: TriggerButton,
    sequence: Seq<GestureStep>,
    step: GestureStep,
    start: int,
) -> Option<int>
    decreases bindings.len() - start,
{
    if start < 0 || start >= bindings.len() {
        None
    } else if hold_matches(bindings[start], trigger, sequence, step) {
        Some(start)
    } else {
        first_hold_from(bindings, trigger, sequence, step, start + 1)
    }
}

/// The hold binding a set selects: the first one for exactly this sequence,
/// else the first one that applies after any sequence.
pub open spec fn hold_in_bindings<A>(
    bindings: Seq<CompiledHoldBinding<A>>,
    trigger: TriggerButton,
    sequence: Seq<GestureStep>,
    step: GestureStep,
) -> Option<int> {
    match first_hold_from(bindings, trigger, sequence, step, 0) {
        Some(i) => Some(i),
        None => first_hold_from(bindings, trigger, Seq::empty(), step, 0),
    }
}

/// The release binding, as (set, binding) indices, that set `set` selects.
pub open spec fn release_in_set<A>(
    sets: Seq<(String, AppBindingSet<A>)>,
    set: Option<int>,
    trigger: TriggerButton,
    sequence: Seq<GestureStep>,
) -> Option<(int, int)> {
    match set {
        None => None,
        Some(k) => match first_release_from(sets[k].1.release_bindings@, trigger, sequence, 0) {
            Some(i) => Some((k, i)),
            None => None,
        },
    }
}

/// The release binding selected: the matched application's set first, then
/// the `"default"` set.
pub open spec fn resolved_release<A>(
    sets: Seq<(String, AppBindingSet<A>)>,
    trigger: TriggerButton,
    sequence: Seq<GestureStep>,
    matched_app: Option<Seq<char>>,
) -> Option<(int, int)> {
    let from_app = match matched_app {
        Some(id) => release_in_set(sets, set_index(sets, id), trigger, sequence),
        None => None,
    };
    if from_app is Some {
        from_app
    } else {
        release_in_set(sets, set_index(sets, DEFAULT_BINDING_SET@), trigger, sequence)
    }
}

/// The hold binding, as (set, binding) indices, that set `set` selects.
pub open spec fn hold_in_set<A>(
    sets: Seq<(String, AppBindingSet<A>)>,
    set: Option<int>,
    trigger: TriggerButton,
    sequence: Seq<GestureStep>,
    step: GestureStep,
) -> Option<(int, int)> {
    match set {
        None => None,
        Some(k) => match hold_in_bindings(sets[k].1.hold_bindings@, trigger, sequence, step) {
            Some(i) => Some((k, i)),
            None => None,
        },
    }
}

/// The hold binding selected: the matched application's set first, then the
/// `"default"` set.
pub open spec fn resolved_hold<A>(
    sets: Seq<(String, AppBindingSet<A>)>,
    trigger: TriggerButton,
    sequence: Seq<GestureStep>,
    step: GestureStep,
    matched_app: Option<Seq<char>>,
) -> Option<(int, int)> {
    let from_app = match matched_app {
        Some(id) => hold_in_set(sets, set_index(sets, id), trigger, sequence, step),
        None => None,
    };
    if from_app is Some {
        from_app
    } else {
        hold_in_set(sets, set_index(sets, DEFAULT_BINDING_SET@), trigger, sequence, step)
    }
}

/// Whether any binding of the set starts with `trigger`.
pub open spec fn set_has_trigger<A>(set: AppBindingSet<A>, trigger: TriggerButton) -> bool {
    ||| exists|i: int|
        0 <= i < set.release_bindings@.len() && (#[trigger] set.release_bindings@[i]).trigger
            == trigger
    ||| exists|i: int|
        0 <= i < set.hold_bindings@.len() && (#[trigger] set.hold_bindings@[i]).trigger == trigger
}

/// Whether the set stored at `set`, if any, has a binding for `trigger`.
pub open spec fn indexed_set_has_trigger<A>(
    sets: Seq<(String, AppBindingSet<A>)>,
    set: Option<int>,
    trigger: TriggerButton,
) -> bool {
    match set {
        Some(k) => set_has_trigger(sets[k].1, trigger),
        None => false,
    }
}

/// `k` is the first position of `sets` that stores a set under `id`.
pub open spec fn first_set_under<A>(sets: Seq<(String, AppBindingSet<A>)>, id: Seq<char>, k: int) -> bool {
    &&& 0 <= k < sets.len()
    &&& sets[k].0@ == id
    &&& forall|j: int| 0 <= j < k ==> (#[trigger] sets[j]).0@ != id
}

/// No position of `sets` stores a set under `id`.
pub open spec fn no_set_under<A>(sets: Seq<(String, AppBindingSet<A>)>, id: Seq<char>) -> bool {
    forall|j: int| 0 <= j < sets.len() ==> (#[trigger] sets[j]).0@ != id
}

/// `i` is the first release binding of `set` started by `trigger` whose
/// step sequence is `sequence`.
pub open spec fn first_fitting_release<A>(
    set: AppBindingSet<A>,
    trigger: TriggerButton,
    sequence: Seq<GestureStep>,
    i: int,
) -> bool {
    &&& 0 <= i < set.release_bindings@.len()
    &&& set.release_bindings@[i].trigger == trigger
    &&& set.release_bindings@[i].sequence@ == sequence
    &&& forall|j: int|
        0 <= j < i ==> !((#[trigger] set.release_bindings@[j]).trigger == trigger
            && set.release_bindings@[j].sequence@ == sequence)
}

/// No release binding of `set` is started by `trigger` with step sequence
/// `sequence`.
pub open spec fn no_fitting_release<A>(
    set: AppBindingSet<A>,
    trigger: TriggerButton,
    sequence: Seq<GestureStep>,
) -> bool {
    forall|j: int|
        0 <= j < set.release_bindings@.len() ==> !((#[trigger] set.release_bindings@[j]).trigger
            == trigger && set.release_bindings@[j].sequence@ == sequence)
}

/// `i` is the first hold binding of `set` for `trigger` and `step` whose
/// step sequence is `sequence`.
pub open spec fn first_fitting_hold<A>(
    set: AppBindingSet<A>,
    trigger: TriggerButton,
    sequence: Seq<GestureStep>,
    step: GestureStep,
    i: int,
) -> bool {
    &&& 0 <= i < set.hold_bindings@.len()
    &&& set.hold_bindings@[i].trigger == trigger
    &&& set.hold_bindings@[i].step == step
    &&& set.hold_bindings@[i].sequence@ == sequence
    &&& forall|j: int|
        0 <= j < i ==> !((#[trigger] set.hold_bindings@[j]).trigger == trigger
            && set.hold_bindings@[j].step == step && set.hold_bindings@[j].sequence@ == sequence)
}

/// No hold binding of `set` for `trigger` and `step` has step sequence
/// `sequence`.
pub open spec fn no_fitting_hold<A>(
    set: AppBindingSet<A>,
    trigger: TriggerButton,
    sequence: Seq<GestureStep>,
    step: GestureStep,
) -> bool {
    forall|j: int|
        0 <= j < set.hold_bindings@.len() ==> !((#[trigger] set.hold_bindings@[j]).trigger
            == trigger && set.hold_bindings@[j].step == step && set.hold_bindings@[j].sequence@
            == sequence)
}

proof fn lemma_set_index_from<A>(sets: Seq<(String, AppBindingSet<A>)>, id: Seq<char>, start: int)
    requires
        0 <= start,
    ensures
        match set_index_from(sets, id, start) {
            Some(k) => start <= k < sets.len() && sets[k].0@ == id && forall|j: int|
                start <= j < k ==> (#[trigger] sets[j]).0@ != id,
            None => forall|j: int| start <= j < sets.len() ==> (#[trigger] sets[j]).0@ != id,
        },
    decreases sets.len() - start,
{
    if start < sets.len() && sets[start].0@ != id {
        lemma_set_index_from(sets, id, start + 1);
    }
}

/// The set a lookup finds is the first one stored under the id, and a
/// lookup finds nothing exactly when no set is stored under it.
pub proof fn lemma_set_lookup<A>(sets: Seq<(String, AppBindingSet<A>)>, id: Seq<char>, k: int)
    ensures
        first_set_under(sets, id, k) ==> set_index(sets, id) == Some(k),
        no_set_under(sets, id) <==> set_index(sets, id) is None,
{
    lemma_set_index_from(sets, id, 0);
}

proof fn lemma_first_release_from<A>(
    bindings: Seq<CompiledGestureBinding<A>>,
    trigger: TriggerButton,
    sequence: Seq<GestureStep>,
    start: int,
)
    requires
        0 <= start,
    ensures
        match first_release_from(bindings, trigger, sequence, start) {
            Some(i) => start <= i < bindings.len() && bindings[i].trigger == trigger
                && bindings[i].sequence@ == sequence && forall|j: int|
                start <= j < i ==> !((#[trigger] bindings[j]).trigger == trigger
                    && bindings[j].sequence@ == sequence),
            None => forall|j: int|
                start <= j < bindings.len() ==> !((#[trigger] bindings[j]).trigger == trigger
                    && bindings[j].sequence@ == sequence),
        },
    decreases bindings.len() - start,
{
    if start < bindings.len() && !release_matches(bindings[start], trigger, sequence) {
        lemma_first_release_from(bindings, trigger, sequence, start + 1);
    }
}

proof fn lemma_first_hold_from<A>(
    bindings: Seq<CompiledHoldBinding<A>>,
    trigger: TriggerButton,
    sequence: Seq<GestureStep>,
    step: GestureStep,
    start: int,
)
    requires
        0 <= start,
    ensures
        match first_hold_from(bindings, trigger, sequence, step, start) {
            Some(i) => start <= i < bindings.len() && bindings[i].trigger == trigger
                && bindings[i].step == step && bindings[i].sequence@ == sequence && forall|j: int|
                start <= j < i ==> !((#[trigger] bindings[j]).trigger == trigger
                    && bindings[j].step == step && bindings[j].sequence@ == sequence),
            None => forall|j: int|
                start <= j < bindings.len() ==> !((#[trigger] bindings[j]).trigger == trigger
                    && bindings[j].step == step && bindings[j].sequence@ == sequence),
        },
    decreases bindings.len() - start,
{
    if start < bindings.len() && !hold_matches(bindings[start], trigger, sequence, step) {
        lemma_first_hold_from(bindings, trigger, sequence, step, start + 1);
    }
}

/// Within one set, the release binding selected is the first one started
/// by the trigger with exactly this step sequence, and none is selected
/// when no binding fits.
pub proof fn lemma_release_in_set<A>(
    set: AppBindingSet<A>,
    trigger: TriggerButton,
    sequence: Seq<GestureStep>,
    i: int,
)
    ensures
        first_fitting_release(set, trigger, sequence, i) ==> first_release_from(
            set.release_bindings@,
            trigger,
            sequence,
            0,
        ) == Some(i),
        no_fitting_release(set, trigger, sequence) <==> first_release_from(
            set.release_bindings@,
            trigger,
            sequence,
            0,
        ) is None,
{
    lemma_first_release_from(set.release_bindings@, trigger, sequence, 0);
}

/// Which release binding a finished gesture selects. When the matched
/// application has a set and a binding in it fits (started by the trigger,
/// with exactly this step sequence), the first such binding of that set is
/// selected. Otherwise (no application matched, it has no set, or nothing
/// in its set fits) the default set answers the same way, and nothing is
/// selected when it has no set or no fitting binding either.
pub proof fn lemma_release_resolution<A>(
    sets: Seq<(String, AppBindingSet<A>)>,
    trigger: TriggerButton,
    sequence: Seq<GestureStep>,
    matched_app: Option<Seq<char>>,
    k: int,
    i: int,
)
    ensures
        matched_app matches Some(id) && first_set_under(sets, id, k) && first_fitting_release(
            sets[k].1,
            trigger,
            sequence,
            i,
        ) ==> resolved_release(sets, trigger, sequence, matched_app) == Some((k, i)),
        ({
            let app_fits = match matched_app {
                Some(id) => exists|a: int|
                    first_set_under(sets, id, a) && !no_fitting_release(
                        (#[trigger] sets[a]).1,
                        trigger,
                        sequence,
                    ),
                None => false,
            };
            &&& !app_fits && first_set_under(sets, DEFAULT_BINDING_SET@, k)
                && first_fitting_release(sets[k].1, trigger, sequence, i) ==> resolved_release(
                sets,
                trigger,
                sequence,
                matched_app,
            ) == Some((k, i))
            &&& !app_fits && (no_set_under(sets, DEFAULT_BINDING_SET@) || (first_set_under(
                sets,
                DEFAULT_BINDING_SET@,
                k,
            ) && no_fitting_release(sets[k].1, trigger, sequence))) ==> resolved_release(
                sets,
                trigger,
                sequence,
                matched_app,
            ) is None
        }),
{
    lemma_set_lookup(sets, DEFAULT_BINDING_SET@, k);
    lemma_release_in_set(sets[k].1, trigger, sequence, i);
    if let Some(id) = matched_app {
        lemma_set_lookup(sets, id, k);
        lemma_set_index_from(sets, id, 0);
        if let Some(a) = set_index(sets, id) {
            assert(first_set_under(sets, id, a));
            lemma_release_in_set(sets[a].1, trigger, sequence, i);
        }
    }
}

/// Which hold binding a wheel step while the trigger is held selects,
/// within one set: the first binding for this trigger and step with
/// exactly this step sequence; when there is none, the first one for this
/// trigger and step with an empty sequence, which applies after any
/// sequence; else none.
pub proof fn lemma_hold_in_set<A>(
    set: AppBindingSet<A>,
    trigger: TriggerButton,
    sequence: Seq<GestureStep>,
    step: GestureStep,
    i: int,
)
    ensures
        first_fitting_hold(set, trigger, sequence, step, i) ==> hold_in_bindings(
            set.hold_bindings@,
            trigger,
            sequence,
            step,
        ) == Some(i),
        no_fitting_hold(set, trigger, sequence, step) && first_fitting_hold(
            set,
            trigger,
            Seq::empty(),
            step,
            i,
        ) ==> hold_in_bindings(set.hold_bindings@, trigger, sequence, step) == Some(i),
        no_fitting_hold(set, trigger, sequence, step) && no_fitting_hold(
            set,
            trigger,
            Seq::empty(),
            step,
        ) ==> hold_in_bindings(set.hold_bindings@, trigger, sequence, step) is None,
{
    lemma_first_hold_from(set.hold_bindings@, trigger, sequence, step, 0);
    lemma_first_hold_from(set.hold_bindings@, trigger, Seq::empty(), step, 0);
}

/// Which hold binding is selected across sets: the matched application's
/// set answers when it selects one; otherwise the default set answers.
pub proof fn lemma_hold_resolution<A>(
    sets: Seq<(String, AppBindingSet<A>)>,
    trigger: TriggerButton,
    sequence: Seq<GestureStep>,
    step: GestureStep,
    matched_app: Option<Seq<char>>,
    k: int,
    i: int,
)
    ensures
        matched_app matches Some(id) && first_set_under(sets, id, k) && hold_in_bindings(
            sets[k].1.hold_bindings@,
            trigger,
            sequence,
            step,
        ) == Some(i) ==> resolved_hold(sets, trigger, sequence, step, matched_app) == Some((k, i)),
        ({
            let app_selects = match matched_app {
                Some(id) => exists|a: int|
                    first_set_under(sets, id, a) && hold_in_bindings(
                        (#[trigger] sets[a]).1.hold_bindings@,
                        trigger,
                        sequence,
                        step,
                    ) is Some,
                None => false,
            };
            &&& !app_selects && first_set_under(sets, DEFAULT_BINDING_SET@, k) ==> resolved_hold(
                sets,
                trigger,
                sequence,
                step,
                matched_app,
            ) == match hold_in_bindings(sets[k].1.hold_bindings@, trigger, sequence, step) {
                Some(i) => Some((k, i)),
                None => None,
            }
            &&& !app_selects && no_set_under(sets, DEFAULT_BINDING_SET@) ==> resolved_hold(
                sets,
                trigger,
                sequence,
                step,
                matched_app,
            ) is None
        }),
{
    lemma_set_lookup(sets, DEFAULT_BINDING_SET@, k);
    if let Some(id) = matched_app {
        lemma_set_lookup(sets, id, k);
        lemma_set_index_from(sets, id, 0);
        if let Some(a) = set_index(sets, id) {
            assert(first_set_under(sets, id, a));
        }
    }
}

/// Whether two step sequences are equal.
fn steps_equal(a: &[GestureStep], b: &[GestureStep]) -> (r: bool)
    ensures
        r == (a@ == b@),
{
    if a.len() != b.len() {
        return false;
    }
    let mut i: usize = 0;
    while i < a.len()
        invariant
            0 <= i <= a@.len(),
            a@.len() == b@.len(),
            forall|j: int| 0 <= j < i ==> a@[j] == b@[j],
        decreases a@.len() - i,
    {
        if a[i] != b[i] {
            assert(a@[i as int] != b@[i as int]);
            return false;
        }
        i = i + 1;
    }
    assert(a@ =~= b@);
    true
}

/// The binding set stored under `id`.
fn find_set<A>(sets: &Vec<(String, AppBindingSet<A>)>, id: &str) -> (r: Option<usize>)
    ensures
        index_view(r) == set_index(sets@, id@),
        r matches Some(k) ==> k < sets@.len(),
{
    let mut k: usize = 0;
    while k < sets.len()
        invariant
            0 <= k <= sets@.len(),
            set_index(sets@, id@) == set_index_from(sets@, id@, k as int),
        decreases sets@.len() - k,
    {
        if text_equal(sets[k].0.as_str(), id) {
            return Some(k);
        }
        k = k + 1;
    }
    None
}

/// The first release binding that fits.
fn find_release<A>(
    bindings: &Vec<CompiledGestureBinding<A>>,
    trigger: TriggerButton,
    sequence: &[GestureStep],
) -> (r: Option<usize>)
    ensures
        index_view(r) == first_release_from(bindings@, trigger, sequence@, 0),
        r matches Some(i) ==> i < bindings@.len(),
{
    let mut i: usize = 0;
    while i < bindings.len()
        invariant
            0 <= i <= bindings@.len(),
            first_release_from(bindings@, trigger, sequence@, 0) == first_release_from(
                bindings@,
                trigger,
                sequence@,
                i as int,
            ),
        decreases bindings@.len() - i,
    {
        let binding = &bindings[i];
        if binding.trigger == trigger && steps_equal(binding.sequence.as_slice(), sequence) {
            return Some(i);
        }
        i = i + 1;
    }
    None
}

/// The first hold binding that fits.
fn find_hold<A>(
    bindings: &Vec<CompiledHoldBinding<A>>,
    trigger: TriggerButton,
    sequence: &[GestureStep],
    step: GestureStep,
) -> (r: Option<usize>)
    ensures
        index_view(r) == first_hold_from(bindings@, trigger, sequence@, step, 0),
        r matches Some(i) ==> i < bindings@.len(),
{
    let mut i: usize = 0;
    while i < bindings.len()
        invariant
            0 <= i <= bindings@.len(),
            first_hold_from(bindings@, trigger, sequence@, step, 0) == first_hold_from(
                bindings@,
                trigger,
                sequence@,
                step,
                i as int,
            ),
        decreases bindings@.len() - i,
    {
        let binding = &bindings[i];
        if binding.trigger == trigger && binding.step == step && steps_equal(
            binding.sequence.as_slice(),
            sequence,
        ) {
            return Some(i);
        }
        i = i + 1;
    }
    None
}

/// Whether any binding of `set` starts with `trigger`.
fn set_has_binding_for<A>(set: &AppBindingSet<A>, trigger: TriggerButton) -> (r: bool)
    ensures
        r == set_has_trigger(*set, trigger),
{
    let mut i: usize = 0;
    while i < set.release_bindings.len()
        invariant
            0 <= i <= set.release_bindings@.len(),
            forall|j: int| 0 <= j < i ==> (#[trigger] set.release_bindings@[j]).trigger != trigger,
        decreases set.release_bindings@.len() - i,
    {
        if set.release_bindings[i].trigger == trigger {
            return true;
        }
        i = i + 1;
    }
    let mut h: usize = 0;
    while h < set.hold_bindings.len()
        invariant
            0 <= h <= set.hold_bindings@.len(),
            forall|j: int| 0 <= j < set.release_bindings@.len() ==> (#[trigger] set.release_bindings@[j]).trigger != trigger,
            forall|j: int| 0 <= j < h ==> (#[trigger] set.hold_bindings@[j]).trigger != trigger,
        decreases set.hold_bindings@.len() - h,
    {
        if set.hold_bindings[h].trigger == trigger {
            return true;
        }
        h = h + 1;
    }
    false
}

/// The hold binding that `set`, if any, selects: the first one for exactly
/// `sequence`, else the first one that applies after any sequence.
pub fn resolve_hold_from_set<'a, A>(
    set: Option<&'a AppBindingSet<A>>,
    trigger: TriggerButton,
    sequence: &[GestureStep],
    step: GestureStep,
) -> (r: Option<&'a CompiledHoldBinding<A>>)
    ensures
        match set {
            None => r is None,
            Some(s) => match hold_in_bindings(s.hold_bindings@, trigger, sequence@, step) {
                None => r is None,
                Some(i) => r matches Some(b) && *b == s.hold_bindings@[i],
            },
        },
{
    let set = match set {
        Some(set) => set,
        None => return None,
    };
    if let Some(i) = find_hold(&set.hold_bindings, trigger, sequence, step) {
        return Some(&set.hold_bindings[i]);
    }
    let any_sequence: Vec<GestureStep> = Vec::new();
    assert(any_sequence@ =~= Seq::<GestureStep>::empty());
    match find_hold(&set.hold_bindings, trigger, any_sequence.as_slice(), step) {
        Some(i) => Some(&set.hold_bindings[i]),
        None => None,
    }
}

impl<A> HookConfig<A> {
    /// The set stored under `id`, if any.
    fn binding_set(&self, id: &str) -> (r: Option<&AppBindingSet<A>>)
        ensures
            match set_index(self.binding_sets@, id@) {
                None => r is None,
                Some(k) => r matches Some(s) && *s == self.binding_sets@[k].1,
            },
    {
        match find_set(&self.binding_sets, id) {
            Some(k) => Some(&self.binding_sets[k].1),
            None => None,
        }
    }

    /// Whether any binding set, of any application or the default one, has
    /// a binding that starts with `trigger`.
    pub fn has_any_binding_for_trigger(&self, trigger: TriggerButton) -> (r: bool)
        ensures
            r == exists|k: int|
                0 <= k < self.binding_sets@.len() && set_has_trigger(
                    (#[trigger] self.binding_sets@[k]).1,
                    trigger,
                ),
    {
        let mut k: usize = 0;
        while k < self.binding_sets.len()
            invariant
                0 <= k <= self.binding_sets@.len(),
                forall|j: int|
                    0 <= j < k ==> !set_has_trigger((#[trigger] self.binding_sets@[j]).1, trigger),
            decreases self.binding_sets@.len() - k,
        {
            if set_has_binding_for(&self.binding_sets[k].1, trigger) {
                return true;
            }
            k = k + 1;
        }
        false
    }

    /// Whether the matched application's set, or the default set, has a
    /// binding that starts with `trigger`.
    pub fn has_binding_for_trigger(&self, trigger: TriggerButton, matched_app: Option<&str>) -> (r:
        bool)
        ensures
            r == ((match matched_app {
                Some(id) => indexed_set_has_trigger(
                    self.binding_sets@,
                    set_index(self.binding_sets@, id@),
                    trigger,
                ),
                None => false,
            }) || indexed_set_has_trigger(
                self.binding_sets@,
                set_index(self.binding_sets@, DEFAULT_BINDING_SET@),
                trigger,
            )),
    {
        if let Some(app_id) = matched_app {
            if let Some(set) = self.binding_set(app_id) {
                if set_has_binding_for(set, trigger) {
                    return true;
                }
            }
        }
        match self.binding_set(DEFAULT_BINDING_SET) {
            Some(set) => set_has_binding_for(set, trigger),
            None => false,
        }
    }

    /// The release binding for a gesture started with `trigger` that ended
    /// after exactly `sequence`: the first that fits in the matched
    /// application's set, else the first that fits in the default set.
    pub fn resolve_binding(
        &self,
        trigger: TriggerButton,
        sequence: &[GestureStep],
        matched_app: Option<&str>,
    ) -> (r: Option<&CompiledGestureBinding<A>>)
        ensures
            match resolved_release(self.binding_sets@, trigger, sequence@, app_view(matched_app)) {
                None => r is None,
                Some((k, i)) => r matches Some(b) && *b == self.binding_sets@[k].1.release_bindings@[i],
            },
    {
        if let Some(app_id) = matched_app {
            if let Some(set) = self.binding_set(app_id) {
                if let Some(i) = find_release(&set.release_bindings, trigger, sequence) {
                    return Some(&set.release_bindings[i]);
                }
            }
        }
        match self.binding_set(DEFAULT_BINDING_SET) {
            Some(set) => match find_release(&set.release_bindings, trigger, sequence) {
                Some(i) => Some(&set.release_bindings[i]),
                None => None,
            },
            None => None,
        }
    }

    /// The hold binding for `step` while `trigger` is held after `sequence`:
    /// what the matched application's set selects, else what the default
    /// set selects.
    pub fn resolve_hold_binding(
        &self,
        trigger: TriggerButton,
        sequence: &[GestureStep],
        step: GestureStep,
        matched_app: Option<&str>,
    ) -> (r: Option<&CompiledHoldBinding<A>>)
        ensures
            match resolved_hold(self.binding_sets@, trigger, sequence@, step, app_view(matched_app)) {
                None => r is None,
                Some((k, i)) => r matches Some(b) && *b == self.binding_sets@[k].1.hold_bindings@[i],
            },
    {
        let app_set = match matched_app {
            Some(app_id) => self.binding_set(app_id),
            None => None,
        };
        if let Some(binding) = resolve_hold_from_set(app_set, trigger, sequence, step) {
            return Some(binding);
        }
        resolve_hold_from_set(self.binding_set(DEFAULT_BINDING_SET), trigger, sequence, step)
    }

    /// The overlay label for the gesture so far: the label of the release
    /// binding it would select.
    pub fn resolve_label(
        &self,
        trigger: TriggerButton,
        sequence: &[GestureStep],
        matched_app: Option<&str>,
    ) -> (r: Option<&String>)
        ensures
            match resolved_release(self.binding_sets@, trigger, sequence@, app_view(matched_app)) {
                None => r is None,
                Some((k, i)) => r matches Some(label) && *label == self.binding_sets@[k].1.release_bindings@[i].label,
            },
    {
        match self.resolve_binding(trigger, sequence, matched_app) {
            Some(binding) => Some(&binding.label),
            None => None,
        }
    }
}

} // verus!
