use spark_shortcuts::lifecycle::ExpanderLifecycle;

#[test]
fn starts_inactive() {
    let lc = ExpanderLifecycle::new();
    assert!(!lc.is_active());
}

#[test]
fn start_twice_keeps_one_session() {
    let mut lc = ExpanderLifecycle::new();
    let first = lc.start();
    let second = lc.start();
    assert!(first, "the first start spawns the single capture session");
    assert!(!second, "a start while active must not spawn another session");
    assert!(lc.is_active());
}

#[test]
fn stop_when_inactive_is_a_quiet_noop() {
    let mut lc = ExpanderLifecycle::new();
    lc.stop();
    assert!(!lc.is_active());
    lc.stop();
    assert!(!lc.is_active());
}

#[test]
fn stop_deactivates() {
    let mut lc = ExpanderLifecycle::new();
    lc.start();
    lc.stop();
    assert!(!lc.is_active());
}

#[test]
fn reload_always_yields_active_with_fresh_session() {
    let mut lc = ExpanderLifecycle::new();
    lc.start();
    let spawn = lc.reload();
    assert!(spawn);
    assert!(lc.is_active());
    let mut idle = ExpanderLifecycle::new();
    assert!(idle.reload());
    assert!(idle.is_active());
}
