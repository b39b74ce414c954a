//! A history provider that integrates with a browser via the
//! [History API](https://developer.mozilla.org/en-US/docs/Web/API/History_API)
//! but uses the url fragment for the route.

use crate::outcome::{PushCall, PushPlan, ReplaceCall};
use crate::scroll::ScrollControl;
use crate::text;
use vstd::prelude::*;

verus! {

/// What stands before the route in every address.
pub open spec fn hash_prefix(pathname: Seq<char>) -> Seq<char> {
    pathname + seq!['#']
}

/// The address of the route `state`.
pub open spec fn hash_url(pathname: Seq<char>, state: Seq<char>) -> Seq<char> {
    hash_prefix(pathname) + state
}

/// The route that an address shows, from its fragment with the `#`. Without a
/// fragment it is the root.
pub open spec fn hash_route(hash: Seq<char>) -> Seq<char> {
    if hash.len() == 0 {
        seq!['/']
    } else {
        text::trimmed_start(hash, '#')
    }
}

/// The address that a push of the route `state` writes, if it writes any: the
/// route that is already shown is not pushed again.
pub open spec fn hash_push(pathname: Seq<char>, hash: Seq<char>, state: Seq<char>) -> Option<
    Seq<char>,
> {
    if state == hash_route(hash) {
        None
    } else {
        Some(hash_url(pathname, state))
    }
}

/// A history provider that keeps the route in the fragment of the address. This
/// allows serving as a single html file or on a single url path.
#[derive(Debug)]
pub struct HashHistory {
    scroll: ScrollControl,
    pathname: String,
}

impl HashHistory {
    /// Whether scroll positions are kept and restored.
    pub closed spec fn restores_scroll(&self) -> bool {
        self.scroll.restores()
    }

    /// The text of the path that the document is served at.
    pub closed spec fn pathname_text(&self) -> Seq<char> {
        self.pathname@
    }

    /// A provider for a document that is served at `pathname`.
    ///
    /// If `do_scroll_restoration` is `true`, the provider takes control of the
    /// history state.
    pub fn new(pathname: String, do_scroll_restoration: bool) -> (history: Self)
        ensures
            history.pathname_text() == pathname@,
            history.restores_scroll() == do_scroll_restoration,
    {
        HashHistory { scroll: ScrollControl::new(do_scroll_restoration), pathname }
    }

    /// How the page scrolls.
    pub fn scroll(&self) -> (scroll: ScrollControl)
        ensures
            scroll.restores() == self.restores_scroll(),
    {
        self.scroll
    }

    /// How to show the route at startup, for a document whose fragment is `hash`.
    pub fn initial_call(&self, hash: &str) -> (call: ReplaceCall)
        ensures
            call.writes(
                hash_url(self.pathname_text(), hash_route(hash@)),
                self.restores_scroll(),
            ),
    {
        let route = self.current_route(hash);
        ReplaceCall { url: Some(self.full_path(&route)), scroll: self.scroll.scroll_pos() }
    }

    /// The address of the route `state`.
    pub fn full_path(&self, state: &String) -> (url: String)
        ensures
            url@ == hash_url(self.pathname_text(), state@),
    {
        proof {
            reveal_strlit("#");
            assert("#"@ =~= seq!['#']);
        }
        text::join(text::join(self.pathname.as_str(), "#").as_str(), state.as_str())
    }

    /// The route that a document shows whose fragment is `hash`.
    pub fn current_route(&self, hash: &str) -> (route: String)
        ensures
            route@ == hash_route(hash@),
    {
        if hash.is_empty() {
            proof {
                reveal_strlit("/");
                assert("/"@ =~= seq!['/']);
            }
            // If the path is empty, parse the root route instead
            "/".to_owned()
        } else {
            text::trim_start(hash, '#').to_owned()
        }
    }

    /// What stands before the route in every address.
    pub fn current_prefix(&self) -> (prefix: Option<String>)
        ensures
            prefix.deep_view() == Some(hash_prefix(self.pathname_text())),
    {
        proof {
            reveal_strlit("#");
            assert("#"@ =~= seq!['#']);
        }
        Some(text::join(self.pathname.as_str(), "#"))
    }

    /// How to show the route `state` in an entry of its own, for a document
    /// whose fragment is `hash`. Nothing is done if it shows that route already.
    pub fn push(&self, state: String, hash: &str) -> (plan: Option<PushPlan>)
        ensures
            match hash_push(self.pathname_text(), hash@, state@) {
                Some(url) => plan matches Some(plan) && plan.writes(url, self.restores_scroll()),
                None => plan is None,
            },
    {
        if state == self.current_route(hash) {
            // don't push the same state twice
            return None;
        }
        let keep = ReplaceCall::update_scroll();
        let push = PushCall { url: self.full_path(&state), scroll: self.scroll.scroll_pos() };
        Some(PushPlan { keep, push })
    }

    /// How to show the route `state` in place of the current one.
    pub fn replace(&self, state: String) -> (call: ReplaceCall)
        ensures
            call.writes(hash_url(self.pathname_text(), state@), self.restores_scroll()),
    {
        ReplaceCall { url: Some(self.full_path(&state)), scroll: self.scroll.scroll_pos() }
    }

    /// Whether the page has to be scrolled to its top, once the browser has
    /// answered a push or a replacement.
    pub fn after_write(&self, accepted: bool) -> (to_top: bool)
        ensures
            to_top == (accepted && self.restores_scroll()),
    {
        accepted && self.scroll.handle_nav()
    }
}

/// The fragment of the address of a route shows that route, if the route does
/// not start with a `#` itself.
pub proof fn law_route_is_read_back(state: Seq<char>)
    requires
        state.len() > 0 ==> state.first() != '#',
    ensures
        hash_route(seq!['#'] + state) == state,
{
    reveal_with_fuel(text::trimmed_start, 2);
    assert((seq!['#'] + state).drop_first() =~= state);
}

/// The address of a route is the path, then the fragment that shows the route.
pub proof fn law_route_is_in_fragment(pathname: Seq<char>, state: Seq<char>)
    ensures
        hash_url(pathname, state) == pathname + (seq!['#'] + state),
{
    assert(hash_url(pathname, state) =~= pathname + (seq!['#'] + state));
}

/// No route starts with a `#`.
pub proof fn law_route_has_no_marker(hash: Seq<char>)
    ensures
        hash_route(hash).len() > 0 ==> hash_route(hash).first() != '#',
{
    text::law_trimmed_start(hash, '#');
}

/// The fragment that a document is given at startup shows the route that the
/// document showed before.
pub proof fn law_startup_keeps_route(hash: Seq<char>)
    ensures
        hash_route(seq!['#'] + hash_route(hash)) == hash_route(hash),
{
    law_route_has_no_marker(hash);
    law_route_is_read_back(hash_route(hash));
}

/// A route that has been pushed is not pushed again while its fragment is
/// shown.
pub proof fn law_pushed_route_is_not_pushed_again(pathname: Seq<char>, state: Seq<char>)
    requires
        state.len() > 0 ==> state.first() != '#',
    ensures
        hash_push(pathname, seq!['#'] + state, state) is None,
{
    law_route_is_read_back(state);
}

} // verus!
