use aw_bridge::entry::Java_net_activitywatch_android_RustInterface_initialize;
use aw_bridge::init::{InitGuard, InitStep};

#[test]
fn fresh_guard_is_not_initialized() {
    assert!(!InitGuard::new().is_initialized());
}

#[test]
fn first_call_redirects() {
    let mut guard = InitGuard::new();
    assert_eq!(guard.ensure_initialized(), InitStep::Redirect);
    assert!(guard.is_initialized());
}

#[test]
fn later_calls_do_nothing() {
    let mut guard = InitGuard::new();
    guard.ensure_initialized();
    assert_eq!(guard.ensure_initialized(), InitStep::AlreadyInitialized);
    assert_eq!(guard.ensure_initialized(), InitStep::AlreadyInitialized);
    assert!(guard.is_initialized());
}

#[test]
fn any_number_of_calls_redirects_once() {
    for calls in 1..=20usize {
        let mut guard = InitGuard::new();
        let mut redirected = 0usize;
        for _ in 0..calls {
            if guard.ensure_initialized() == InitStep::Redirect {
                redirected += 1;
            }
        }
        assert_eq!(redirected, 1);
    }
}

#[test]
fn initialize_entry_point_redirects_on_the_first_call_only() {
    let mut guard = InitGuard::new();
    assert_eq!(
        Java_net_activitywatch_android_RustInterface_initialize(&mut guard),
        InitStep::Redirect
    );
    assert_eq!(
        Java_net_activitywatch_android_RustInterface_initialize(&mut guard),
        InitStep::AlreadyInitialized
    );
    assert!(guard.is_initialized());
}
