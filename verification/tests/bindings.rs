use zero_gesture::bindings::{
    resolve_hold_from_set, AppBindingSet, CompiledGestureBinding, CompiledHoldBinding,
    GestureStep, HookConfig,
};
use zero_gesture::input::TriggerButton;

const RIGHT: GestureStep = GestureStep(1);
const DOWN: GestureStep = GestureStep(2);
const WHEEL_UP: GestureStep = GestureStep(10);

#[derive(Clone, Debug, PartialEq)]
enum Action {
    Keyboard { keys: Vec<String> },
}

fn key_action(key: &str) -> Action {
    Action::Keyboard {
        keys: vec![key.to_string()],
    }
}

fn binding(
    trigger: TriggerButton,
    sequence: Vec<GestureStep>,
    action: Action,
    label: &str,
) -> CompiledGestureBinding<Action> {
    CompiledGestureBinding {
        trigger,
        sequence,
        action,
        label: label.to_string(),
    }
}

fn hold_binding(
    trigger: TriggerButton,
    sequence: Vec<GestureStep>,
    step: GestureStep,
    action: Action,
    label: &str,
) -> CompiledHoldBinding<Action> {
    CompiledHoldBinding {
        trigger,
        sequence,
        step,
        action,
        label: label.to_string(),
    }
}

fn config(binding_sets: Vec<(String, AppBindingSet<Action>)>) -> HookConfig<Action> {
    HookConfig {
        safety_timeout_ms: 2000,
        min_segment_px: 1,
        direction_switch_confirm_px: 1,
        axis_ambiguity_deadzone_px: 0,
        replay_distance_threshold_px: 8,
        max_gesture_steps: 8,
        binding_sets,
    }
}

#[test]
fn resolve_binding_prefers_app_specific_then_fallback() {
    let default_action = key_action("a");
    let app_action = key_action("b");
    let config = config(vec![
        (
            "default".to_string(),
            AppBindingSet {
                release_bindings: vec![binding(
                    TriggerButton::Right,
                    vec![RIGHT],
                    default_action.clone(),
                    "Default",
                )],
                hold_bindings: Vec::new(),
            },
        ),
        (
            "explorer".to_string(),
            AppBindingSet {
                release_bindings: vec![binding(
                    TriggerButton::Right,
                    vec![RIGHT],
                    app_action.clone(),
                    "App",
                )],
                hold_bindings: Vec::new(),
            },
        ),
    ]);

    let app_binding = config
        .resolve_binding(TriggerButton::Right, &[RIGHT], Some("explorer"))
        .expect("app binding");
    assert_eq!(app_binding.action, app_action);

    let fallback = config
        .resolve_binding(TriggerButton::Right, &[RIGHT], Some("unknown"))
        .expect("default fallback");
    assert_eq!(fallback.action, default_action);
}

#[test]
fn a_binding_needs_the_same_trigger_and_the_exact_sequence() {
    let config = config(vec![(
        "default".to_string(),
        AppBindingSet {
            release_bindings: vec![binding(
                TriggerButton::Right,
                vec![RIGHT, DOWN],
                key_action("a"),
                "Right then down",
            )],
            hold_bindings: Vec::new(),
        },
    )]);
    assert!(config
        .resolve_binding(TriggerButton::Right, &[RIGHT, DOWN], None)
        .is_some());
    assert!(config
        .resolve_binding(TriggerButton::Right, &[RIGHT], None)
        .is_none());
    assert!(config
        .resolve_binding(TriggerButton::Left, &[RIGHT, DOWN], None)
        .is_none());
    assert_eq!(
        config.resolve_label(TriggerButton::Right, &[RIGHT, DOWN], None),
        Some(&"Right then down".to_string())
    );
    assert_eq!(config.resolve_label(TriggerButton::Right, &[DOWN], None), None);
}

#[test]
fn trigger_lookup_consults_the_app_then_the_default_set() {
    let config = config(vec![
        (
            "default".to_string(),
            AppBindingSet {
                release_bindings: vec![binding(
                    TriggerButton::Right,
                    vec![RIGHT],
                    key_action("a"),
                    "A",
                )],
                hold_bindings: Vec::new(),
            },
        ),
        (
            "editor".to_string(),
            AppBindingSet {
                release_bindings: Vec::new(),
                hold_bindings: vec![hold_binding(
                    TriggerButton::Middle,
                    Vec::new(),
                    WHEEL_UP,
                    key_action("b"),
                    "B",
                )],
            },
        ),
    ]);
    assert!(config.has_binding_for_trigger(TriggerButton::Middle, Some("editor")));
    assert!(!config.has_binding_for_trigger(TriggerButton::Middle, None));
    assert!(config.has_binding_for_trigger(TriggerButton::Right, Some("editor")));
    assert!(!config.has_binding_for_trigger(TriggerButton::Left, Some("editor")));
    assert!(config.has_any_binding_for_trigger(TriggerButton::Middle));
    assert!(!config.has_any_binding_for_trigger(TriggerButton::Left));
}

#[test]
fn hold_specific_sequence_overrides_the_any_sequence_binding() {
    let set = AppBindingSet {
        release_bindings: Vec::new(),
        hold_bindings: vec![
            hold_binding(TriggerButton::Right, Vec::new(), WHEEL_UP, key_action("any"), "Any"),
            hold_binding(TriggerButton::Right, vec![RIGHT], WHEEL_UP, key_action("specific"), "Specific"),
        ],
    };
    let specific = resolve_hold_from_set(Some(&set), TriggerButton::Right, &[RIGHT], WHEEL_UP)
        .expect("specific hold binding");
    assert_eq!(specific.label, "Specific");
    let any = resolve_hold_from_set(Some(&set), TriggerButton::Right, &[DOWN], WHEEL_UP)
        .expect("any-sequence hold binding");
    assert_eq!(any.label, "Any");
    assert!(resolve_hold_from_set(Some(&set), TriggerButton::Left, &[RIGHT], WHEEL_UP).is_none());
    assert!(resolve_hold_from_set::<Action>(None, TriggerButton::Right, &[RIGHT], WHEEL_UP).is_none());

    let config = config(vec![("default".to_string(), set)]);
    let from_default = config
        .resolve_hold_binding(TriggerButton::Right, &[RIGHT], WHEEL_UP, Some("unknown"))
        .expect("default hold binding");
    assert_eq!(from_default.label, "Specific");
}
