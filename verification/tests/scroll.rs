use web_routes::hash_history::HashHistory;
use web_routes::scroll::{ScrollControl, ScrollPosition, ScrollSource};
use web_routes::web_history::WebHistory;

#[test]
fn a_coordinate_that_is_not_told_is_zero() {
    assert_eq!(
        ScrollPosition::of_window(Some(1.5), None),
        ScrollPosition { x: 1.5, y: 0.0 }
    );
    assert_eq!(
        ScrollPosition::of_window(None, Some(2.5)),
        ScrollPosition { x: 0.0, y: 2.5 }
    );
}

#[test]
fn an_entry_gives_back_the_position_it_keeps() {
    let position = ScrollPosition { x: 1.5, y: 2.5 };
    let state = position.to_state();
    assert_eq!(state, [1.5, 2.5]);
    let saved = ScrollPosition::get_current(Some(state[0]), Some(state[1]));
    assert_eq!(saved, Some(position));
    assert_eq!(ScrollControl::new(true).on_popstate(saved), Some(position));
    assert_eq!(ScrollControl::new(false).on_popstate(saved), None);
}

#[test]
fn an_entry_without_both_numbers_keeps_nothing() {
    assert_eq!(ScrollPosition::get_current(Some(1), None), None);
    assert_eq!(ScrollPosition::get_current(None, Some(1)), None);
    assert_eq!(ScrollPosition::<u8>::get_current(None, None), None);
    let nothing: Option<ScrollPosition<u8>> = None;
    assert_eq!(ScrollControl::new(true).on_popstate(nothing), None);
}

#[test]
fn control_is_all_or_nothing() {
    let on = WebHistory::new(None, None, true).scroll();
    assert_eq!(on, HashHistory::new("/".to_string(), true).scroll());
    assert!(on.is_manual());
    assert!(on.handle_nav());
    assert_eq!(on.scroll_pos(), ScrollSource::Window);
    let off = WebHistory::new(None, None, false).scroll();
    assert_eq!(off, HashHistory::new("/".to_string(), false).scroll());
    assert!(!off.is_manual());
    assert!(!off.handle_nav());
    assert_eq!(off.scroll_pos(), ScrollSource::Origin);
}

#[test]
fn an_entry_gets_the_position_of_its_source() {
    assert_eq!(
        ScrollSource::Window.position(Some(1.5), Some(2.5)),
        ScrollPosition { x: 1.5, y: 2.5 }
    );
    assert_eq!(
        ScrollSource::Window.position(None, Some(2.5)),
        ScrollPosition { x: 0.0, y: 2.5 }
    );
    assert_eq!(
        ScrollSource::Origin.position(Some(1.5), Some(2.5)),
        ScrollPosition { x: 0.0, y: 0.0 }
    );
}
