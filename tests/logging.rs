use relay::logging::{relay_log_filter, InitGuard, LogLevel, TRANSPORT_TARGET};

#[test]
fn filter_levels() {
    let filter = relay_log_filter();
    assert_eq!(filter.targets.len(), 1);
    assert_eq!(filter.targets[0].target, "hyper");
    assert_eq!(filter.targets[0].target, TRANSPORT_TARGET);
    assert_eq!(filter.targets[0].level, LogLevel::Info);
    assert_eq!(filter.default_level, LogLevel::Debug);
}

#[test]
fn init_granted_once() {
    let mut guard = InitGuard::new();
    assert!(!guard.installed);
    assert!(guard.claim());
    assert!(guard.installed);
    for _ in 0..10 {
        assert!(!guard.claim());
    }
    assert!(guard.installed);
}
