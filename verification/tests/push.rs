use web_routes::fallback::{Fallback, FallbackGuard};
use web_routes::push::{push_was_silently_dropped, PushReport};

#[test]
fn a_push_that_moved_the_address_is_fine() {
    assert!(!push_was_silently_dropped(
        "app:/home",
        "app:/cappers/",
        Some("app:/cappers/")
    ));
}

#[test]
fn a_push_to_the_current_address_is_not_a_drop() {
    assert!(!push_was_silently_dropped(
        "app:/home",
        "app:/home",
        Some("app:/home")
    ));
}

#[test]
fn an_address_that_did_not_move_is_a_drop() {
    assert!(push_was_silently_dropped(
        "app:/home",
        "app:/home",
        Some("app:/cappers/")
    ));
}

#[test]
fn a_target_that_does_not_resolve_is_left_alone() {
    assert!(!push_was_silently_dropped("app:/home", "app:/home", None));
}

#[test]
fn a_push_that_moved_elsewhere_is_not_a_drop() {
    assert!(!push_was_silently_dropped("app:/a", "app:/b", Some("app:/c")));
    assert!(!push_was_silently_dropped("app:/a", "app:/b", None));
}

#[test]
fn a_report_fails_if_it_threw_or_was_dropped() {
    let returned = |before: &str, after: &str, resolved: Option<&str>| PushReport::Returned {
        before: before.to_string(),
        after: after.to_string(),
        resolved: resolved.map(str::to_string),
    };
    assert!(PushReport::Threw.has_failed());
    assert!(returned("app:/a", "app:/a", Some("app:/b")).has_failed());
    assert!(!returned("app:/a", "app:/b", Some("app:/b")).has_failed());
    assert!(!returned("app:/a", "app:/a", None).has_failed());
}

#[test]
fn one_fallback_is_taken_per_document() {
    let mut guard = FallbackGuard::new();
    assert_eq!(guard.fallback_navigation("/a"), Fallback::Navigate("/a".to_string()));
    assert_eq!(guard.fallback_navigation("/b"), Fallback::AlreadyUsed("/b".to_string()));
    assert_eq!(guard.fallback_navigation("/a"), Fallback::AlreadyUsed("/a".to_string()));
}
