use web_routes::hash_history::HashHistory;
use web_routes::outcome::{PushCall, PushPlan, ReplaceCall};
use web_routes::scroll::ScrollSource;

fn served_at(pathname: &str) -> HashHistory {
    HashHistory::new(pathname.to_string(), true)
}

fn replacement(url: &str, scroll: ScrollSource) -> ReplaceCall {
    ReplaceCall { url: Some(url.to_string()), scroll }
}

fn plan(url: &str, scroll: ScrollSource) -> PushPlan {
    PushPlan {
        keep: ReplaceCall { url: None, scroll: ScrollSource::Window },
        push: PushCall { url: url.to_string(), scroll },
    }
}

#[test]
fn the_route_is_the_fragment() {
    let history = served_at("/index.html");
    assert_eq!(history.current_route("#/a/b"), "/a/b");
    assert_eq!(history.current_route("##/a#b"), "/a#b");
    assert_eq!(history.current_route("/a"), "/a");
    assert_eq!(history.current_route(""), "/");
    assert_eq!(history.current_route("#"), "");
}

#[test]
fn the_path_and_a_marker_stand_before_the_route() {
    let history = served_at("/index.html");
    assert_eq!(history.current_prefix().as_deref(), Some("/index.html#"));
    assert_eq!(history.full_path(&"/a".to_string()), "/index.html#/a");
}

#[test]
fn startup_writes_the_route_into_the_fragment() {
    let history = served_at("/");
    assert_eq!(history.initial_call(""), replacement("/#/", ScrollSource::Window));
    assert_eq!(history.initial_call("#/a"), replacement("/#/a", ScrollSource::Window));
    let history = HashHistory::new("/".to_string(), false);
    assert_eq!(history.initial_call("#/a"), replacement("/#/a", ScrollSource::Origin));
}

#[test]
fn a_route_in_the_fragment_is_pushed_once() {
    let history = served_at("/");
    assert_eq!(
        history.push("/a".to_string(), ""),
        Some(plan("/#/a", ScrollSource::Window))
    );
    assert_eq!(history.push("/a".to_string(), "#/a"), None);
    assert_eq!(history.push("/".to_string(), ""), None);
}

#[test]
fn an_accepted_write_scrolls_to_the_top() {
    let history = served_at("/");
    assert_eq!(history.replace("/a".to_string()), replacement("/#/a", ScrollSource::Window));
    assert!(history.after_write(true));
    assert!(!history.after_write(false));
    assert!(!HashHistory::new("/".to_string(), false).after_write(true));
}
