//! A history provider that integrates with a browser via the
//! [History API](https://developer.mozilla.org/en-US/docs/Web/API/History_API).

use crate::fallback::FallbackGuard;
use crate::location::Location;
use crate::outcome::{PushCall, PushOutcome, PushPlan, ReplaceCall, ReplaceOutcome};
use crate::push::PushReport;
use crate::scroll::ScrollControl;
use crate::text;
use vstd::prelude::*;
use vstd::string::StrSliceExecFns;

verus! {

/// A path prefix as it is kept: it starts with one slash, goes on after it, and
/// does not end with one.
pub open spec fn is_normal_prefix(prefix: Seq<char>) -> bool {
    &&& prefix.len() >= 2
    &&& prefix[0] == '/'
    &&& prefix[1] != '/'
    &&& prefix.last() != '/'
}

/// The form in which a path prefix is kept: without the slashes at its ends and
/// with one in front. A prefix of slashes alone is none.
pub open spec fn normal_prefix(prefix: Option<Seq<char>>) -> Option<Seq<char>> {
    match prefix {
        Some(prefix) => {
            let inner = text::trimmed(prefix, '/');
            if inner.len() == 0 {
                None
            } else {
                Some(seq!['/'] + inner)
            }
        },
        None => None,
    }
}

/// The address of the route `state`.
pub open spec fn web_url(prefix: Option<Seq<char>>, state: Seq<char>) -> Seq<char> {
    match prefix {
        Some(prefix) => prefix + state,
        None => state,
    }
}

/// The route that an address shows, from its path, query and fragment.
///
/// The route is what follows the prefix, with a slash in place of the first
/// character. An address without the prefix shows the prefix. An empty route is
/// the root.
pub open spec fn web_route(prefix: Option<Seq<char>>, path: Seq<char>) -> Seq<char> {
    let rest = match prefix {
        Some(prefix) => if prefix.is_prefix_of(path) {
            let rest = path.skip(prefix.len() as int);
            if rest.len() > 0 {
                seq!['/'] + rest.drop_first()
            } else {
                rest
            }
        } else {
            prefix
        },
        None => path,
    };
    if rest.len() == 0 {
        seq!['/']
    } else {
        rest
    }
}

/// The address that a push of the route `state` writes, if it writes any: the
/// route that is already shown is not pushed again.
pub open spec fn web_push(prefix: Option<Seq<char>>, path: Seq<char>, state: Seq<char>) -> Option<
    Seq<char>,
> {
    if state == web_route(prefix, path) {
        None
    } else {
        Some(web_url(prefix, state))
    }
}

/// A history provider that keeps the route in the path of the address.
///
/// # Prefix
/// A prefix can be used for web apps that aren't located at the root of their
/// domain.
///
/// Application developers are responsible for ensuring that right after the
/// prefix comes a `/`. If that is not the case, the first character after the
/// prefix is replaced with one.
///
/// Application developers are responsible for not rendering the router if the
/// prefix is not present in the URL. Otherwise, if a router navigation is
/// triggered, the prefix will be added.
#[derive(Debug)]
pub struct WebHistory {
    scroll: ScrollControl,
    prefix: Option<String>,
}

impl WebHistory {
    /// Whether scroll positions are kept and restored.
    pub closed spec fn restores_scroll(&self) -> bool {
        self.scroll.restores()
    }

    /// The text of the prefix.
    pub closed spec fn prefix_text(&self) -> Option<Seq<char>> {
        self.prefix.deep_view()
    }

    #[verifier::type_invariant]
    spec fn prefix_is_normal(&self) -> bool {
        self.prefix_text() matches Some(prefix) ==> is_normal_prefix(prefix)
    }

    /// A provider with the given prefix, or with `base_path`, the one that the
    /// application was built with, if no prefix is given.
    ///
    /// If `do_scroll_restoration` is `true`, the provider takes control of the
    /// history state.
    pub fn new(
        prefix: Option<String>,
        base_path: Option<String>,
        do_scroll_restoration: bool,
    ) -> (history: Self)
        ensures
            history.prefix_text() == normal_prefix(
                if prefix is Some {
                    prefix.deep_view()
                } else {
                    base_path.deep_view()
                },
            ),
            history.restores_scroll() == do_scroll_restoration,
    {
        let chosen = if prefix.is_some() {
            prefix
        } else {
            base_path
        };
        let prefix = match chosen {
            Some(chosen) => {
                let inner = text::trim(chosen.as_str(), '/');
                if inner.is_empty() {
                    None
                } else {
                    proof {
                        reveal_strlit("/");
                        text::law_trimmed(chosen@, '/');
                        assert("/"@ =~= seq!['/']);
                    }
                    Some(text::join("/", inner))
                }
            },
            None => None,
        };
        WebHistory { scroll: ScrollControl::new(do_scroll_restoration), prefix }
    }

    /// How the page scrolls.
    pub fn scroll(&self) -> (scroll: ScrollControl)
        ensures
            scroll.restores() == self.restores_scroll(),
    {
        self.scroll
    }

    /// How to show the route at startup, for a document at `location`.
    pub fn initial_call(&self, location: &Location) -> (call: ReplaceCall)
        ensures
            call.writes(
                web_url(
                    self.prefix_text(),
                    web_route(self.prefix_text(), location.path_text()),
                ),
                self.restores_scroll(),
            ),
    {
        let route = self.route_from_location(location);
        ReplaceCall { url: Some(self.full_path(&route)), scroll: self.scroll.scroll_pos() }
    }

    /// The route that `location` shows.
    pub fn route_from_location(&self, location: &Location) -> (route: String)
        ensures
            route@ == web_route(self.prefix_text(), location.path_text()),
            route@.len() > 0,
            self.prefix_text() is Some ==> route@.first() == '/',
    {
        proof {
            use_type_invariant(self);
            reveal_strlit("/");
            assert("/"@ =~= seq!['/']);
        }
        let path = location.path();
        match &self.prefix {
            None => {
                if path.as_str().is_empty() {
                    "/".to_owned()
                } else {
                    path
                }
            },
            Some(prefix) => {
                match text::strip_prefix(path.as_str(), prefix.as_str()) {
                    Some(rest) => {
                        if rest.is_empty() {
                            "/".to_owned()
                        } else {
                            let len = rest.unicode_len();
                            assert(rest@.subrange(1, len as int) =~= rest@.drop_first());
                            text::join("/", rest.substring_char(1, len))
                        }
                    },
                    None => prefix.clone(),
                }
            },
        }
    }

    /// The address of the route `state`.
    pub fn full_path(&self, state: &String) -> (url: String)
        ensures
            url@ == web_url(self.prefix_text(), state@),
    {
        match &self.prefix {
            None => state.clone(),
            Some(prefix) => text::join(prefix.as_str(), state.as_str()),
        }
    }

    /// The route that `location` shows.
    pub fn current_route(&self, location: &Location) -> (route: String)
        ensures
            route@ == web_route(self.prefix_text(), location.path_text()),
            route@.len() > 0,
            self.prefix_text() is Some ==> route@.first() == '/',
    {
        self.route_from_location(location)
    }

    /// The prefix of every address.
    pub fn current_prefix(&self) -> (prefix: Option<String>)
        ensures
            prefix.deep_view() == self.prefix_text(),
            prefix matches Some(prefix) ==> is_normal_prefix(prefix@),
    {
        proof {
            use_type_invariant(self);
        }
        match &self.prefix {
            None => None,
            Some(prefix) => Some(prefix.clone()),
        }
    }

    /// How to show the route `state` in an entry of its own, for a document at
    /// `location`. Nothing is done if it shows that route already.
    pub fn push(&self, state: String, location: &Location) -> (plan: Option<PushPlan>)
        ensures
            match web_push(self.prefix_text(), location.path_text(), state@) {
                Some(url) => plan matches Some(plan) && plan.writes(url, self.restores_scroll()),
                None => plan is None,
            },
    {
        if state == self.current_route(location) {
            // don't push the same state twice
            return None;
        }
        let keep = ReplaceCall::update_scroll();
        let push = PushCall { url: self.full_path(&state), scroll: self.scroll.scroll_pos() };
        Some(PushPlan { keep, push })
    }

    /// What is left to do once the browser has answered the push of `url`.
    ///
    /// WebKit refuses history writes for a document that is over its state
    /// budget or whose origin it treats as sandboxed, and the router then
    /// renders the old route with nothing logged. A full navigation recovers
    /// the user, once for each document.
    pub fn after_push(&self, url: &str, report: &PushReport, guard: &mut FallbackGuard) -> (outcome:
        PushOutcome)
        ensures
            outcome@ == crate::outcome::push_outcome(
                old(guard).is_taken(),
                self.restores_scroll(),
                url@,
                report.failed(),
            ),
            final(guard).is_taken() == (old(guard).is_taken() || report.failed()),
    {
        if report.has_failed() {
            PushOutcome::FellBack(guard.fallback_navigation(url))
        } else {
            PushOutcome::Arrived { to_top: self.scroll.handle_nav() }
        }
    }

    /// How to show the route `state` in place of the current one.
    pub fn replace(&self, state: String) -> (call: ReplaceCall)
        ensures
            call.writes(web_url(self.prefix_text(), state@), self.restores_scroll()),
    {
        ReplaceCall { url: Some(self.full_path(&state)), scroll: self.scroll.scroll_pos() }
    }

    /// What is left to do once the browser has answered a replacement.
    ///
    /// A rejected replacement leaves the address where it was, which the app
    /// survives. Reloading here instead could turn a replacement made during
    /// startup into a reload loop.
    pub fn after_replace(&self, accepted: bool) -> (outcome: ReplaceOutcome)
        ensures
            outcome == (if accepted {
                ReplaceOutcome::Arrived { to_top: self.restores_scroll() }
            } else {
                ReplaceOutcome::Rejected
            }),
    {
        if accepted {
            ReplaceOutcome::Arrived { to_top: self.scroll.handle_nav() }
        } else {
            ReplaceOutcome::Rejected
        }
    }
}

/// The kept form of a prefix starts with one slash, goes on after it, and does
/// not end with one.
pub proof fn law_kept_prefix_is_normal(prefix: Option<Seq<char>>)
    ensures
        normal_prefix(prefix) matches Some(kept) ==> is_normal_prefix(kept),
{
    if let Some(prefix) = prefix {
        text::law_trimmed(prefix, '/');
    }
}

/// A prefix in its kept form is kept as it is.
pub proof fn law_normal_prefix_is_kept(prefix: Seq<char>)
    requires
        is_normal_prefix(prefix),
    ensures
        normal_prefix(Some(prefix)) == Some(prefix),
{
    let inner = prefix.drop_first();
    text::law_trimmed_undoes_padding(inner, '/', 1, 0);
    assert(prefix =~= text::run('/', 1) + inner + text::run('/', 0));
    assert(prefix =~= seq!['/'] + inner);
}

/// Slashes around a prefix make no difference to what is kept of it.
pub proof fn law_slashes_around_prefix(inner: Seq<char>, before: nat, after: nat)
    ensures
        normal_prefix(Some(text::run('/', before) + inner + text::run('/', after)))
            == normal_prefix(Some(inner)),
{
    let padded = text::run('/', before) + inner + text::run('/', after);
    let kept = text::trimmed(inner, '/');
    text::law_trimmed(inner, '/');
    let (b, a): (nat, nat) = choose|b: nat, a: nat|
        inner == #[trigger] text::run('/', b) + kept + #[trigger] text::run('/', a);
    assert(padded =~= text::run('/', before + b) + kept + text::run('/', a + after));
    text::law_trimmed_undoes_padding(kept, '/', before + b, a + after);
}

/// A prefix of slashes alone is none.
pub proof fn law_prefix_of_slashes_is_none(count: nat)
    ensures
        normal_prefix(Some(text::run('/', count))) is None,
{
    text::law_trimmed_undoes_padding(seq![], '/', count, 0);
    assert(text::run('/', count) =~= text::run('/', count) + seq![] + text::run('/', 0));
}

/// A route is never empty, and behind a prefix it starts with a slash.
pub proof fn law_route_is_rooted(prefix: Option<Seq<char>>, path: Seq<char>)
    requires
        prefix matches Some(prefix) ==> prefix.len() > 0 && prefix.first() == '/',
    ensures
        web_route(prefix, path).len() > 0,
        prefix is Some ==> web_route(prefix, path).first() == '/',
{
}

/// The address of a route shows that route, if the route starts with a slash.
/// Without a prefix it is enough that the route is not empty.
pub proof fn law_route_is_read_back(prefix: Option<Seq<char>>, state: Seq<char>)
    requires
        state.len() > 0,
        prefix is Some ==> state.first() == '/',
    ensures
        web_route(prefix, web_url(prefix, state)) == state,
{
    if let Some(prefix) = prefix {
        let url = prefix + state;
        assert(prefix =~= url.subrange(0, prefix.len() as int));
        assert(url.skip(prefix.len() as int) =~= state);
        assert(seq!['/'] + state.drop_first() =~= state);
    }
}

/// The first character after the prefix is replaced with a slash.
pub proof fn law_slash_follows_prefix(prefix: Seq<char>, first: char, rest: Seq<char>)
    ensures
        web_route(Some(prefix), prefix + seq![first] + rest) == seq!['/'] + rest,
{
    let path = prefix + seq![first] + rest;
    assert(prefix =~= path.subrange(0, prefix.len() as int));
    assert(path.skip(prefix.len() as int).drop_first() =~= rest);
}

/// An address that ends where the prefix does shows the root.
pub proof fn law_bare_prefix_shows_root(prefix: Seq<char>)
    ensures
        web_route(Some(prefix), prefix) == seq!['/'],
{
    assert(prefix =~= prefix.subrange(0, prefix.len() as int));
}

/// Every address that is written starts with the prefix, whether or not the
/// address that it takes the place of did.
pub proof fn law_prefix_is_added(prefix: Seq<char>, state: Seq<char>)
    ensures
        prefix.is_prefix_of(web_url(Some(prefix), state)),
{
    assert(prefix =~= (prefix + state).subrange(0, prefix.len() as int));
}

/// The address that a document is given at startup shows the route that the
/// document showed before.
pub proof fn law_startup_keeps_route(prefix: Option<Seq<char>>, path: Seq<char>)
    requires
        prefix matches Some(prefix) ==> prefix.len() > 0 && prefix.first() == '/',
    ensures
        web_route(prefix, web_url(prefix, web_route(prefix, path))) == web_route(prefix, path),
{
    law_route_is_rooted(prefix, path);
    law_route_is_read_back(prefix, web_route(prefix, path));
}

/// A document whose address has a slash right after the prefix is given the
/// address that it has. Without a prefix it is enough that the address is not
/// empty.
pub proof fn law_startup_keeps_address(prefix: Option<Seq<char>>, rest: Seq<char>)
    requires
        rest.len() > 0,
        prefix is Some ==> rest.first() == '/',
    ensures
        web_url(prefix, web_route(prefix, web_url(prefix, rest))) == web_url(prefix, rest),
{
    law_route_is_read_back(prefix, rest);
}

/// A route that has been pushed is not pushed again while its address is shown.
pub proof fn law_pushed_route_is_not_pushed_again(prefix: Option<Seq<char>>, state: Seq<char>)
    requires
        state.len() > 0,
        prefix is Some ==> state.first() == '/',
    ensures
        web_push(prefix, web_url(prefix, state), state) is None,
{
    law_route_is_read_back(prefix, state);
}

} // verus!
