use zero_gesture::input::check_safety_timeout;

#[test]
fn safety_timeout_works_with_wrapping_ticks() {
    // A session that began on the button press at tick u32::MAX - 500.
    let entered_tick = Some(u32::MAX - 500);
    assert!(check_safety_timeout(entered_tick, 2500, 2000));
}

#[test]
fn an_idle_state_never_times_out() {
    assert!(!check_safety_timeout(None, u32::MAX, 0));
}

#[test]
fn a_session_times_out_only_past_the_limit() {
    assert!(!check_safety_timeout(Some(1000), 3000, 2000));
    assert!(check_safety_timeout(Some(1000), 3001, 2000));
}
