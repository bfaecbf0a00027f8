use std::cell::{Cell, RefCell};

use crossbeam_channel::{bounded, TryRecvError};
use zero_gesture::context::{
    bounded_utf8, context_resolution_is_fresh, discard_slow_resolution,
    executable_name_from_path, publish_resolution, request_due, require_ax,
    resolve_consistent_window, window_consistency, FocusQuery, retained_application, target_token, timed_ax_query, ContextIdentity, ContextRequest,
    ContextRequester, ProcessIdentity, RequestMailbox, ResolveFailure, ResolvedContext,
    SnapshotMailbox, AX_ERROR_CANNOT_COMPLETE, FOCUSED_WINDOW_ATTRIBUTE,
    MAX_CONTEXT_UTF16_UNITS, MAX_CONTEXT_UTF8_BYTES, WINDOW_TITLE_ATTRIBUTE,
};
use zero_gesture::input::{
    BindingSetId, ContextView, MouseEvent, Point, TargetToken, TriggerButton, CONTEXT_MAX_AGE_MS,
};

fn identity(pid: i32, started_seconds: u64, window_fingerprint: u64) -> ContextIdentity {
    ContextIdentity {
        process: ProcessIdentity {
            pid,
            started_seconds,
            started_microseconds: 7,
        },
        window_fingerprint,
    }
}

fn resolved(identity: ContextIdentity, point: Point, tick: u32) -> ResolvedContext {
    ResolvedContext {
        request_id: 1,
        view: ContextView {
            generation: 3,
            binding_set: BindingSetId::from_index(1).unwrap(),
            target: target_token(identity),
            point,
            updated_tick: tick,
        },
        identity,
    }
}

fn resolved_request(identity: ContextIdentity, request: ContextRequest) -> ResolvedContext {
    ResolvedContext {
        request_id: request.request_id,
        ..resolved(identity, request.point, request.tick)
    }
}

fn mailbox_with_value() -> SnapshotMailbox {
    let mut mailbox = SnapshotMailbox::new();
    mailbox.publish(Some(resolved(identity(41, 100, 9), Point::new(1, 2), 10)));
    mailbox
}

/// The owner side and the resolver side of context resolution, with the
/// resolver run as soon as a request is published.
struct Resolution<R: FnMut(ContextRequest) -> Result<ResolvedContext, ResolveFailure>> {
    requester: ContextRequester,
    requests: RequestMailbox,
    snapshots: SnapshotMailbox,
    resolver: R,
}

impl<R: FnMut(ContextRequest) -> Result<ResolvedContext, ResolveFailure>> Resolution<R> {
    fn new(resolver: R) -> Self {
        Self {
            requester: ContextRequester::new(),
            requests: RequestMailbox::new(),
            snapshots: SnapshotMailbox::new(),
            resolver,
        }
    }

    fn observe(&mut self, event: MouseEvent, point: Point, timestamp_ns: u64) -> bool {
        match self.requester.observe(event, point, timestamp_ns) {
            Some(request) => {
                self.requests.publish(request);
                true
            }
            None => false,
        }
    }

    fn resolve_pending(&mut self) {
        let request = self.requests.latest();
        let resolution = discard_slow_resolution((self.resolver)(request), 0);
        publish_resolution(&mut self.snapshots, resolution);
    }

    fn latest(&self, point: Point, tick: u32) -> Option<ContextView> {
        self.requester.latest(&self.snapshots, point, tick)
    }
}

fn assert_failure_clears(failure: ResolveFailure) {
    let mut first_resolution = true;
    let mut worker = Resolution::new(move |request| {
        if first_resolution {
            first_resolution = false;
            Ok(resolved_request(identity(41, 100, 9), request))
        } else {
            Err(failure)
        }
    });
    let first_point = Point::new(1, 2);
    assert!(worker.observe(
        MouseEvent::ButtonDown(TriggerButton::Right),
        first_point,
        1_000_000
    ));
    worker.resolve_pending();
    assert!(worker.latest(first_point, 1).is_some());

    assert!(worker.observe(
        MouseEvent::ButtonDown(TriggerButton::Right),
        Point::new(3, 4),
        2_000_000
    ));
    worker.resolve_pending();
    assert!(worker.latest(first_point, 1).is_none());
}

fn focus_change_degrades_to_unknown() {
    let index = Cell::new(0);
    let result = resolve_consistent_window(
        |_query| {
            let window = [7_u64, 8][index.get()];
            index.set(index.get() + 1);
            Ok(window)
        },
        |_| Ok("title"),
        |left, right| left == right,
    );

    assert_eq!(result, Err(ResolveFailure::TargetExited));
}

fn executable_path_keeps_a_long_basename() {
    assert_eq!(
        executable_name_from_path(b"/Applications/Long App.app/Contents/MacOS/long-executable-name"),
        Ok("long-executable-name".to_string())
    );
}

fn request_rate_limit() {
    assert!(request_due(None, MouseEvent::MouseMove, 1_000));
    assert!(!request_due(Some(1_000), MouseEvent::MouseMove, 1_024));
    assert!(request_due(Some(1_000), MouseEvent::MouseMove, 1_025));
    assert!(request_due(
        Some(1_024),
        MouseEvent::ButtonDown(TriggerButton::Right),
        1_025
    ));
    assert!(!request_due(
        None,
        MouseEvent::ButtonUp(TriggerButton::Right),
        1_025
    ));
    assert!(!request_due(None, MouseEvent::WheelUp(1), 1_025));
    assert!(!request_due(None, MouseEvent::WheelDown(1), 1_025));
    assert!(!request_due(None, MouseEvent::Other, 1_025));
}

fn request_mailbox_coalesces() {
    let (wake, woken) = bounded(1);
    let mut mailbox = RequestMailbox::new();
    for value in 1..=3 {
        mailbox.publish(ContextRequest {
            request_id: value,
            point: Point::new(value as i32, value as i32),
            tick: value as u32,
        });
        let _ = wake.try_send(());
    }

    assert_eq!(woken.try_recv(), Ok(()));
    assert_eq!(woken.try_recv(), Err(TryRecvError::Empty));
    assert_eq!(
        mailbox.latest(),
        ContextRequest {
            request_id: 3,
            point: Point::new(3, 3),
            tick: 3,
        }
    );
}

fn oversized_string_is_rejected() {
    let bytes = vec![b'a'; MAX_CONTEXT_UTF8_BYTES + 1];
    assert_eq!(
        bounded_utf8(&bytes, bytes.len(), bytes.len()),
        Err(ResolveFailure::Oversized)
    );
    assert_failure_clears(ResolveFailure::Oversized);
}

fn malformed_string_is_rejected() {
    assert_eq!(bounded_utf8(&[0xff], 1, 1), Err(ResolveFailure::InvalidData));
    assert_failure_clears(ResolveFailure::InvalidData);
}

fn new_process_identity_replaces_the_cached_window() {
    let mut mailbox = SnapshotMailbox::new();
    let point = Point::new(8, 9);
    let first = resolved(identity(51, 100, 5), point, 20);
    let second = resolved(identity(51, 101, 6), point, 21);
    mailbox.publish(Some(first));
    mailbox.publish(Some(second));

    let current = mailbox.latest(point, 21).unwrap();
    assert_eq!(current.identity, second.identity);
    assert_ne!(current.view.target, first.view.target);
}

fn window_fingerprint_is_not_the_target_identity() {
    let process = identity(51, 100, 5);
    let other_window = ContextIdentity {
        window_fingerprint: 6,
        ..process
    };

    assert_eq!(target_token(process), target_token(other_window));
}

fn cache_requires_exact_point_and_freshness() {
    let mailbox = mailbox_with_value();
    assert!(mailbox.latest(Point::new(1, 2), 110).is_some());
    assert!(mailbox.latest(Point::new(1, 2), 111).is_none());
    assert!(mailbox.latest(Point::new(2, 2), 10).is_none());
}

fn worker_delay_invalidates_the_latest_context() {
    let mut mailbox = mailbox_with_value();
    let next = resolved(identity(41, 100, 10), Point::new(1, 2), 20);
    publish_resolution(
        &mut mailbox,
        discard_slow_resolution(Ok(next), (u128::from(CONTEXT_MAX_AGE_MS) + 1) * 1_000_000),
    );

    assert!(mailbox.latest(Point::new(1, 2), 20).is_none());
}

#[test]
fn mod_consistent_window_query_applies_the_exact_timed_ax_sequence() {
    #[derive(Debug, PartialEq)]
    enum QueryStep {
        Timeout(u32),
        Attribute(&'static str),
        Equal,
    }
    const TIMEOUT_SECONDS: f32 = 0.05;
    assert_eq!(FOCUSED_WINDOW_ATTRIBUTE, "AXFocusedWindow");
    assert_eq!(WINDOW_TITLE_ATTRIBUTE, "AXTitle");
    let calls = RefCell::new(Vec::new());
    let result = resolve_consistent_window(
        |_query| {
            timed_ax_query(
                FOCUSED_WINDOW_ATTRIBUTE,
                || {
                    calls
                        .borrow_mut()
                        .push(QueryStep::Timeout(TIMEOUT_SECONDS.to_bits()));
                    Ok(())
                },
                |attribute| {
                    calls.borrow_mut().push(QueryStep::Attribute(attribute));
                    Ok(7_u64)
                },
            )
        },
        |_| {
            timed_ax_query(
                WINDOW_TITLE_ATTRIBUTE,
                || {
                    calls
                        .borrow_mut()
                        .push(QueryStep::Timeout(TIMEOUT_SECONDS.to_bits()));
                    Ok(())
                },
                |attribute| {
                    calls.borrow_mut().push(QueryStep::Attribute(attribute));
                    Ok("title")
                },
            )
        },
        |first, current| {
            calls.borrow_mut().push(QueryStep::Equal);
            first == current
        },
    );

    assert_eq!(result.map(|(_, title)| title), Ok("title"));
    assert_eq!(
        calls.into_inner(),
        [
            QueryStep::Timeout(0.05_f32.to_bits()),
            QueryStep::Attribute("AXFocusedWindow"),
            QueryStep::Timeout(0.05_f32.to_bits()),
            QueryStep::Attribute("AXTitle"),
            QueryStep::Timeout(0.05_f32.to_bits()),
            QueryStep::Attribute("AXFocusedWindow"),
            QueryStep::Equal,
        ]
    );
}

#[test]
fn mod_focus_change_during_resolution_degrades_to_unknown() {
    focus_change_degrades_to_unknown();
}

#[test]
fn macos_context_focus_change_during_resolution_degrades_to_unknown() {
    focus_change_degrades_to_unknown();
}

#[test]
fn mod_executable_path_keeps_a_long_complete_basename() {
    executable_path_keeps_a_long_basename();
}

#[test]
fn macos_context_executable_path_keeps_a_long_complete_basename() {
    executable_path_keeps_a_long_basename();
}

#[test]
fn mod_mouse_move_is_rate_limited_button_down_is_immediate_and_other_events_are_rejected() {
    request_rate_limit();
}

#[test]
fn macos_context_mouse_move_is_rate_limited_button_down_is_immediate_and_other_events_are_rejected(
) {
    request_rate_limit();
}

#[test]
fn mod_request_mailbox_is_bounded_and_coalesces_to_the_latest_request() {
    request_mailbox_coalesces();
}

#[test]
fn macos_context_request_mailbox_is_bounded_and_coalesces_to_the_latest_request() {
    request_mailbox_coalesces();
}

#[test]
fn mod_permission_denial_clears_the_latest_context() {
    assert_failure_clears(ResolveFailure::PermissionDenied);
}

#[test]
fn macos_context_permission_denial_clears_the_latest_context() {
    assert_failure_clears(ResolveFailure::PermissionDenied);
}

#[test]
fn mod_accessibility_error_clears_the_latest_context() {
    assert_failure_clears(ResolveFailure::Accessibility);
}

#[test]
fn macos_context_accessibility_error_clears_the_latest_context() {
    assert_eq!(require_ax(-25201), Err(ResolveFailure::Accessibility));
    assert_failure_clears(ResolveFailure::Accessibility);
}

#[test]
fn mod_accessibility_timeout_clears_the_latest_context() {
    assert_failure_clears(ResolveFailure::Timeout);
}

#[test]
fn macos_context_accessibility_timeout_clears_the_latest_context() {
    assert_eq!(
        require_ax(AX_ERROR_CANNOT_COMPLETE),
        Err(ResolveFailure::Timeout)
    );
    assert_failure_clears(ResolveFailure::Timeout);
}

#[test]
fn mod_target_exit_clears_the_latest_context() {
    assert_failure_clears(ResolveFailure::TargetExited);
}

#[test]
fn macos_context_target_exit_clears_the_latest_context() {
    assert_failure_clears(ResolveFailure::TargetExited);
}

#[test]
fn mod_oversized_context_string_is_rejected_before_publication() {
    oversized_string_is_rejected();
}

#[test]
fn macos_context_oversized_context_string_is_rejected_before_publication() {
    oversized_string_is_rejected();
}

#[test]
fn mod_malformed_context_string_is_rejected_before_publication() {
    malformed_string_is_rejected();
}

#[test]
fn macos_context_malformed_context_string_is_rejected_before_publication() {
    malformed_string_is_rejected();
}

#[test]
fn mod_same_pid_with_a_new_process_identity_replaces_the_cached_window() {
    new_process_identity_replaces_the_cached_window();
}

#[test]
fn macos_context_same_pid_with_a_new_process_identity_replaces_the_cached_window() {
    new_process_identity_replaces_the_cached_window();
}

#[test]
fn mod_window_fingerprint_is_not_used_as_unique_target_identity() {
    window_fingerprint_is_not_the_target_identity();
}

#[test]
fn macos_context_window_fingerprint_is_not_used_as_unique_target_identity() {
    window_fingerprint_is_not_the_target_identity();
}

#[test]
fn mod_cache_requires_exact_point_and_bounded_freshness() {
    cache_requires_exact_point_and_freshness();
}

#[test]
fn macos_context_cache_requires_exact_point_and_bounded_freshness() {
    cache_requires_exact_point_and_freshness();
}

#[test]
fn mod_worker_delay_beyond_freshness_invalidates_the_latest_context() {
    worker_delay_invalidates_the_latest_context();
}

#[test]
fn macos_context_worker_delay_beyond_freshness_invalidates_the_latest_context() {
    worker_delay_invalidates_the_latest_context();
}

#[test]
fn ax_error_classes_preserve_failure_mapping() {
    assert_eq!(require_ax(0), Ok(()));
    assert_eq!(require_ax(-25204), Err(ResolveFailure::Timeout));
    assert_eq!(require_ax(-25201), Err(ResolveFailure::Accessibility));
}

#[test]
fn same_tick_pre_invalidation_result_is_rejected_until_new_request_completes() {
    let mut requester = ContextRequester::new();
    let mut snapshots = SnapshotMailbox::new();
    let point = Point::new(12, 34);

    let old_request = requester
        .observe(MouseEvent::MouseMove, point, 25_000_000)
        .unwrap();
    requester.set_needed(false);
    requester.set_needed(true);
    let new_request = requester
        .observe(MouseEvent::MouseMove, point, 25_000_000)
        .unwrap();

    publish_resolution(
        &mut snapshots,
        Ok(resolved_request(identity(41, 100, 9), old_request)),
    );
    let old_result_was_rejected = requester.latest(&snapshots, point, 25).is_none();

    publish_resolution(
        &mut snapshots,
        Ok(resolved_request(identity(42, 100, 9), new_request)),
    );
    assert!(requester
        .latest(&snapshots, point, 25)
        .is_some_and(|context| context.target == target_token(identity(42, 100, 9))));
    assert!(old_result_was_rejected);
}

#[test]
fn context_need_transition_invalidates_the_latest_snapshot() {
    let mut worker = Resolution::new(|request| Ok(resolved_request(identity(71, 200, 11), request)));
    let point = Point::new(12, 34);
    assert!(worker.observe(MouseEvent::MouseMove, point, 25_000_000));
    worker.resolve_pending();
    assert!(worker.latest(point, 25).is_some());

    worker.requester.set_needed(false);
    assert!(worker.latest(point, 25).is_none());
    worker.requester.set_needed(true);
    assert!(worker.latest(point, 25).is_none());

    let next_point = Point::new(13, 35);
    assert!(worker.observe(MouseEvent::MouseMove, next_point, 26_000_000));
    worker.resolve_pending();
    assert!(worker.latest(next_point, 26).is_some());
}

#[test]
fn disabled_requester_makes_no_requests() {
    let mut requester = ContextRequester::new();
    requester.set_needed(false);
    assert!(requester
        .observe(MouseEvent::ButtonDown(TriggerButton::Left), Point::new(0, 0), 0)
        .is_none());
}

#[test]
fn requests_are_numbered_from_one() {
    let mut requester = ContextRequester::new();
    let first = requester
        .observe(MouseEvent::ButtonDown(TriggerButton::Left), Point::new(5, 6), 7_000_000)
        .unwrap();
    assert_eq!(
        first,
        ContextRequest {
            request_id: 1,
            point: Point::new(5, 6),
            tick: 7
        }
    );
    assert!(requester
        .observe(MouseEvent::MouseMove, Point::new(5, 6), 8_000_000)
        .is_none());
    let second = requester
        .observe(MouseEvent::MouseMove, Point::new(5, 7), 32_000_000)
        .unwrap();
    assert_eq!(second.request_id, 2);
}

#[test]
fn bounded_utf8_checks_the_limits_and_the_conversion() {
    assert_eq!(
        bounded_utf8(b"abc", 3, MAX_CONTEXT_UTF16_UNITS + 1),
        Err(ResolveFailure::Oversized)
    );
    assert_eq!(bounded_utf8(b"abc", 2, 3), Err(ResolveFailure::InvalidData));
    assert_eq!(bounded_utf8("é".as_bytes(), 1, 1), Ok("é".to_string()));
}

#[test]
fn executable_name_is_lowercased_and_needs_a_basename() {
    assert_eq!(
        executable_name_from_path(b"/Applications/Safari.app/Contents/MacOS/Safari"),
        Ok("safari".to_string())
    );
    assert_eq!(
        executable_name_from_path(b"/usr/bin/"),
        Err(ResolveFailure::InvalidData)
    );
    assert_eq!(executable_name_from_path(b"Finder"), Ok("finder".to_string()));
    assert_eq!(
        executable_name_from_path(&[b'/', 0xff]),
        Err(ResolveFailure::InvalidData)
    );
}

#[test]
fn target_token_mixes_pid_and_start_time() {
    assert_eq!(target_token(identity(51, 100, 5)), TargetToken(0x1f45_e999_97e0_521c));
    let zero = ContextIdentity {
        process: ProcessIdentity {
            pid: 0,
            started_seconds: 0,
            started_microseconds: 0,
        },
        window_fingerprint: 9,
    };
    assert_eq!(target_token(zero), TargetToken(0));
    assert_ne!(
        target_token(identity(51, 100, 5)),
        target_token(identity(52, 100, 5))
    );
    assert_ne!(target_token(identity(51, 100, 5)), TargetToken(0));
}

#[test]
fn freshness_bound_wraps_with_the_tick_counter() {
    assert!(context_resolution_is_fresh(5, 5));
    assert!(context_resolution_is_fresh(u32::MAX, 99));
    assert!(!context_resolution_is_fresh(u32::MAX, 100));
}

#[test]
fn slow_resolution_becomes_a_timeout() {
    let ok: Result<u8, ResolveFailure> = Ok(1);
    assert_eq!(discard_slow_resolution(ok, 100_000_000), Ok(1));
    assert_eq!(
        discard_slow_resolution(ok, 100_000_001),
        Err(ResolveFailure::Timeout)
    );
}

#[test]
fn native_nullable_cf_create_is_rejected_before_owned_drop() {
    assert!(matches!(
        retained_application::<u64>(None),
        Err(ResolveFailure::TargetExited)
    ));
    assert_eq!(retained_application(Some(9_u64)), Ok(9));
}

#[test]
fn window_consistency_keeps_the_first_window_only_when_focus_stayed() {
    assert_eq!(window_consistency(7_u64, "title", true), Ok((7, "title")));
    assert_eq!(
        window_consistency(7_u64, "title", false),
        Err(ResolveFailure::TargetExited)
    );
}

#[test]
fn resolution_compares_the_initial_window_with_the_rechecked_one() {
    let compared = RefCell::new(Vec::new());
    let result = resolve_consistent_window(
        |query| {
            Ok(match query {
                FocusQuery::Initial => 7_u64,
                FocusQuery::Recheck => 8,
            })
        },
        |_| Ok("title"),
        |first, second| {
            compared.borrow_mut().push((*first, *second));
            first == second
        },
    );
    assert_eq!(result, Err(ResolveFailure::TargetExited));
    assert_eq!(compared.into_inner(), [(7, 8)]);
}

#[test]
fn a_failed_recheck_ends_the_resolution_with_its_error() {
    let result = resolve_consistent_window(
        |query| match query {
            FocusQuery::Initial => Ok(7_u64),
            FocusQuery::Recheck => Err(ResolveFailure::Timeout),
        },
        |_| Ok("title"),
        |first, second| first == second,
    );
    assert_eq!(result, Err(ResolveFailure::Timeout));
}
