use web_routes::fallback::{Fallback, FallbackGuard};
use web_routes::location::Location;
use web_routes::outcome::{PushCall, PushOutcome, PushPlan, ReplaceCall, ReplaceOutcome};
use web_routes::push::PushReport;
use web_routes::scroll::ScrollSource;
use web_routes::web_history::WebHistory;

fn at(pathname: &str, search: &str, hash: &str) -> Location {
    Location {
        pathname: Some(pathname.to_string()),
        search: Some(search.to_string()),
        hash: Some(hash.to_string()),
    }
}

fn with_prefix(prefix: &str) -> WebHistory {
    WebHistory::new(Some(prefix.to_string()), None, true)
}

fn replacement(url: &str, scroll: ScrollSource) -> ReplaceCall {
    ReplaceCall { url: Some(url.to_string()), scroll }
}

fn plan(url: &str, scroll: ScrollSource) -> PushPlan {
    PushPlan {
        keep: ReplaceCall { url: None, scroll: ScrollSource::Window },
        push: PushCall { url: url.to_string(), scroll },
    }
}

#[test]
fn a_prefix_is_kept_with_one_leading_slash() {
    for prefix in ["app", "/app", "app/", "//app//", "/app/"] {
        assert_eq!(with_prefix(prefix).current_prefix().as_deref(), Some("/app"));
    }
    assert_eq!(with_prefix("/a//b/").current_prefix().as_deref(), Some("/a//b"));
    assert_eq!(with_prefix("/\u{e9}/").current_prefix().as_deref(), Some("/\u{e9}"));
}

#[test]
fn a_prefix_of_slashes_is_none() {
    for prefix in ["", "/", "///"] {
        assert_eq!(with_prefix(prefix).current_prefix(), None);
    }
}

#[test]
fn the_base_path_stands_in_for_a_missing_prefix() {
    let base = || Some("base/".to_string());
    let history = WebHistory::new(None, base(), true);
    assert_eq!(history.current_prefix().as_deref(), Some("/base"));
    let history = WebHistory::new(Some("app".to_string()), base(), true);
    assert_eq!(history.current_prefix().as_deref(), Some("/app"));
    // An empty prefix is a given one.
    let history = WebHistory::new(Some(String::new()), base(), true);
    assert_eq!(history.current_prefix(), None);
    assert_eq!(WebHistory::new(None, None, true).current_prefix(), None);
}

#[test]
fn the_route_is_path_query_and_fragment() {
    let history = WebHistory::new(None, None, true);
    assert_eq!(history.current_route(&at("/a/b", "?c=d", "#e")), "/a/b?c=d#e");
    assert_eq!(history.route_from_location(&at("", "", "")), "/");
    let untold = Location { pathname: None, search: None, hash: None };
    assert_eq!(history.current_route(&untold), "/");
}

#[test]
fn the_route_starts_behind_the_prefix() {
    let history = with_prefix("app");
    assert_eq!(history.current_route(&at("/app/a", "?c=d", "#e")), "/a?c=d#e");
    assert_eq!(history.current_route(&at("/app", "", "")), "/");
    assert_eq!(history.current_route(&at("/app/", "", "")), "/");
    assert_eq!(with_prefix("\u{e9}").current_route(&at("/\u{e9}/a", "", "")), "/a");
}

#[test]
fn the_first_character_after_the_prefix_becomes_a_slash() {
    let history = with_prefix("app");
    assert_eq!(history.current_route(&at("/appXa/b", "", "")), "/a/b");
    assert_eq!(history.current_route(&at("/app", "?c=d", "")), "/c=d");
    assert_eq!(history.initial_call(&at("/appXa", "", "")).url.as_deref(), Some("/app/a"));
}

#[test]
fn an_address_without_the_prefix_shows_the_prefix() {
    let history = with_prefix("app");
    assert_eq!(history.current_route(&at("/other", "", "")), "/app");
    assert_eq!(history.current_route(&at("/ap", "", "")), "/app");
    assert_eq!(history.initial_call(&at("/other", "", "")).url.as_deref(), Some("/app/app"));
}

#[test]
fn the_prefix_is_added_to_a_route() {
    assert_eq!(with_prefix("app").full_path(&"/a".to_string()), "/app/a");
    assert_eq!(WebHistory::new(None, None, true).full_path(&"/a".to_string()), "/a");
}

#[test]
fn startup_keeps_a_well_formed_address() {
    let history = with_prefix("app");
    assert_eq!(
        history.initial_call(&at("/app/a", "?b", "#c")),
        replacement("/app/a?b#c", ScrollSource::Window)
    );
    let history = WebHistory::new(None, None, false);
    assert_eq!(history.initial_call(&at("/a", "", "")), replacement("/a", ScrollSource::Origin));
}

#[test]
fn a_pushed_route_is_read_back() {
    let history = with_prefix("app");
    let pushed = history.push("/a?b=c".to_string(), &at("/app/", "", "")).unwrap();
    assert_eq!(pushed, plan("/app/a?b=c", ScrollSource::Window));
    let shown = at("/app/a", "?b=c", "");
    assert_eq!(history.current_route(&shown), "/a?b=c");
    assert_eq!(history.push("/a?b=c".to_string(), &shown), None);
    assert_eq!(
        WebHistory::new(None, None, false).push("/b".to_string(), &at("/a", "", "")),
        Some(plan("/b", ScrollSource::Origin))
    );
}

#[test]
fn a_push_arrives_or_falls_back_once() {
    let history = with_prefix("app");
    let mut guard = FallbackGuard::new();
    let moved = PushReport::Returned {
        before: "app:/a".to_string(),
        after: "app:/b".to_string(),
        resolved: Some("app:/b".to_string()),
    };
    let dropped = PushReport::Returned {
        before: "app:/a".to_string(),
        after: "app:/a".to_string(),
        resolved: Some("app:/b".to_string()),
    };
    assert_eq!(
        history.after_push("/b", &moved, &mut guard),
        PushOutcome::Arrived { to_top: true }
    );
    assert_eq!(
        history.after_push("/b", &dropped, &mut guard),
        PushOutcome::FellBack(Fallback::Navigate("/b".to_string()))
    );
    assert_eq!(
        history.after_push("/c", &PushReport::Threw, &mut guard),
        PushOutcome::FellBack(Fallback::AlreadyUsed("/c".to_string()))
    );
    assert_eq!(
        WebHistory::new(None, None, false).after_push("/b", &moved, &mut guard),
        PushOutcome::Arrived { to_top: false }
    );
    assert_eq!(
        history.after_push("/c", &PushReport::Threw, &mut FallbackGuard::new()),
        PushOutcome::FellBack(Fallback::Navigate("/c".to_string()))
    );
}

#[test]
fn a_rejected_replacement_does_nothing_more() {
    let history = with_prefix("app");
    assert_eq!(
        history.replace("/a".to_string()),
        replacement("/app/a", ScrollSource::Window)
    );
    assert_eq!(history.after_replace(true), ReplaceOutcome::Arrived { to_top: true });
    assert_eq!(history.after_replace(false), ReplaceOutcome::Rejected);
    let history = WebHistory::new(None, None, false);
    assert_eq!(history.replace("/a".to_string()), replacement("/a", ScrollSource::Origin));
    assert_eq!(history.after_replace(true), ReplaceOutcome::Arrived { to_top: false });
}
