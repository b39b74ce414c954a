//! What the calls of the library give, and how they relate.
//!
//! Each law speaks of the arguments and results of calls: `call_ensures(f, args,
//! result)` says that a call of `f` with `args` gave `result`.

use crate::fallback::{Fallback, FallbackGuard};
use crate::hash_history::HashHistory;
use crate::location::Location;
use crate::outcome::{PushOutcome, PushPlan, ReplaceCall, ReplaceOutcome};
use crate::push::{push_was_silently_dropped, PushReport};
use crate::scroll::{ScrollControl, ScrollPosition, ScrollSource};
use crate::text;
use crate::web_history::WebHistory;
use vstd::prelude::*;

verus! {

/// Trimming the start cuts off exactly the unwanted characters that the text
/// starts with.
pub proof fn law_trim_start(given: &str, unwanted: char, kept: &str)
    requires
        call_ensures(text::trim_start, (given, unwanted), kept),
    ensures
        kept@.len() <= given@.len(),
        kept@ == given@.skip(given@.len() - kept@.len()),
        forall|i: int| 0 <= i < given@.len() - kept@.len() ==> given@[i] == unwanted,
        kept@.len() > 0 ==> kept@[0] != unwanted,
{
    text::law_trimmed_start(given@, unwanted);
    assert(kept@ =~= given@.skip(given@.len() - kept@.len()));
}

/// Trimming the end cuts off exactly the unwanted characters that the text ends
/// with.
pub proof fn law_trim_end(given: &str, unwanted: char, kept: &str)
    requires
        call_ensures(text::trim_end, (given, unwanted), kept),
    ensures
        kept@.len() <= given@.len(),
        kept@ == given@.take(kept@.len() as int),
        forall|i: int| kept@.len() <= i < given@.len() ==> given@[i] == unwanted,
        kept@.len() > 0 ==> kept@[kept@.len() - 1] != unwanted,
{
    text::law_trimmed_end(given@, unwanted);
    assert(kept@ =~= given@.take(kept@.len() as int));
}

/// Trimming both ends keeps a stretch of the text, outside of which every
/// character is unwanted, and which neither starts nor ends with one.
pub proof fn law_trim(given: &str, unwanted: char, kept: &str)
    requires
        call_ensures(text::trim, (given, unwanted), kept),
    ensures
        exists|from: int, to: int|
            {
                &&& 0 <= from <= to <= given@.len()
                &&& kept@ == #[trigger] given@.subrange(from, to)
                &&& forall|i: int|
                    (0 <= i < from || to <= i < given@.len()) ==> given@[i] == unwanted
            },
        kept@.len() > 0 ==> kept@[0] != unwanted && kept@[kept@.len() - 1] != unwanted,
{
    let start = text::trimmed_start(given@, unwanted);
    text::law_trimmed_start(given@, unwanted);
    text::law_trimmed_end(start, unwanted);
    let from = given@.len() - start.len();
    let to = from + kept@.len();
    assert(kept@ =~= given@.subrange(from, to));
    assert forall|i: int| (0 <= i < from || to <= i < given@.len()) implies given@[i]
        == unwanted by {
        if to <= i {
            assert(given@[i] == start[i - from]);
        }
    }
    if kept@.len() > 0 {
        assert(kept@[0] == start[0]);
    }
}

/// Two texts are the same exactly if they hold the same characters.
pub proof fn law_same(left: &str, right: &str, equal: bool)
    requires
        call_ensures(text::same, (left, right), equal),
    ensures
        equal <==> left@.len() == right@.len() && (forall|i: int|
            0 <= i < left@.len() ==> left@[i] == right@[i]),
{
    if left@.len() == right@.len() && (forall|i: int|
        0 <= i < left@.len() ==> left@[i] == right@[i]) {
        assert(left@ =~= right@);
    }
}

/// A prefix is stripped exactly if the text starts with it, and prefix and rest
/// make up the text.
pub proof fn law_strip_prefix(given: &str, prefix: &str, rest: Option<&str>)
    requires
        call_ensures(text::strip_prefix, (given, prefix), rest),
    ensures
        rest is None <==> !prefix@.is_prefix_of(given@),
        rest matches Some(rest) ==> prefix@ + rest@ == given@,
{
    if let Some(rest) = rest {
        assert(prefix@ + rest@ =~= given@);
    }
}

/// Joined text starts with the one part, goes on with the other, and ends there.
pub proof fn law_join(head: &str, tail: &str, joined: String)
    requires
        call_ensures(text::join, (head, tail), joined),
    ensures
        joined@.take(head@.len() as int) == head@,
        joined@.skip(head@.len() as int) == tail@,
        joined@.len() == head@.len() + tail@.len(),
{
    assert(joined@.take(head@.len() as int) =~= head@);
    assert(joined@.skip(head@.len() as int) =~= tail@);
}

/// The text of an address is its path, its query and its fragment one after the
/// other, also where one of them is empty. Where the browser does not tell the
/// path, the root takes its place; where it does not tell the query or the
/// fragment, nothing does.
pub proof fn law_address_text(location: &Location, path: String)
    requires
        call_ensures(Location::path, (location,), path),
    ensures
        ({
            let pathname = match location.pathname {
                Some(pathname) => pathname@,
                None => seq!['/'],
            };
            let search = match location.search {
                Some(search) => search@,
                None => seq![],
            };
            let hash = match location.hash {
                Some(hash) => hash@,
                None => seq![],
            };
            path@ == pathname + search + hash
        }),
{
}

/// A given prefix is kept with one slash in front of what stands between the
/// slashes at its ends. If nothing stands there, no prefix is kept. The base
/// path counts as the given prefix exactly if there is no other.
pub proof fn law_web_prefix(
    prefix: Option<String>,
    base_path: Option<String>,
    do_scroll_restoration: bool,
    history: WebHistory,
    kept: Option<String>,
    before: Seq<char>,
    inner: Seq<char>,
    after: Seq<char>,
)
    requires
        call_ensures(WebHistory::new, (prefix, base_path, do_scroll_restoration), history),
        call_ensures(WebHistory::current_prefix, (&history,), kept),
        forall|i: int| 0 <= i < before.len() ==> before[i] == '/',
        forall|i: int| 0 <= i < after.len() ==> after[i] == '/',
        inner.len() > 0 ==> inner.first() != '/' && inner.last() != '/',
        match prefix {
            Some(prefix) => prefix@ == before + inner + after,
            None => base_path matches Some(base_path) && base_path@ == before + inner + after,
        },
    ensures
        inner.len() == 0 ==> kept is None,
        inner.len() > 0 ==> (kept matches Some(kept) && kept@ == seq!['/'] + inner),
{
    assert(before =~= text::run('/', before.len()));
    assert(after =~= text::run('/', after.len()));
    text::law_trimmed_undoes_padding(inner, '/', before.len(), after.len());
}

/// Without a prefix and without a base path no prefix is kept.
pub proof fn law_web_without_prefix(
    do_scroll_restoration: bool,
    history: WebHistory,
    kept: Option<String>,
)
    requires
        call_ensures(WebHistory::new, (None, None, do_scroll_restoration), history),
        call_ensures(WebHistory::current_prefix, (&history,), kept),
    ensures
        kept is None,
{
}

/// A provider controls scrolling exactly if it was made to.
pub proof fn law_web_scroll(
    prefix: Option<String>,
    base_path: Option<String>,
    do_scroll_restoration: bool,
    history: WebHistory,
    control: ScrollControl,
    manual: bool,
)
    requires
        call_ensures(WebHistory::new, (prefix, base_path, do_scroll_restoration), history),
        call_ensures(WebHistory::scroll, (&history,), control),
        call_ensures(ScrollControl::is_manual, (&control,), manual),
    ensures
        manual == do_scroll_restoration,
{
}

/// Without a prefix the whole text of the address is the route, and the root if
/// that text is empty.
///
/// With a prefix, what follows it in the address is the route, but for the first
/// character, which is a slash whatever it was. Where nothing follows, the root
/// is the route; where the prefix is missing, the prefix is.
pub proof fn law_web_route(
    history: &WebHistory,
    location: &Location,
    path: String,
    prefix: Option<String>,
    route: String,
)
    requires
        call_ensures(Location::path, (location,), path),
        call_ensures(WebHistory::current_prefix, (history,), prefix),
        call_ensures(WebHistory::current_route, (history, location), route),
    ensures
        prefix is None && path@.len() > 0 ==> route@ == path@,
        prefix is None && path@.len() == 0 ==> route@ == seq!['/'],
        prefix matches Some(prefix) ==> {
            &&& !prefix@.is_prefix_of(path@) ==> route@ == prefix@
            &&& path@ == prefix@ ==> route@ == seq!['/']
            &&& prefix@.is_prefix_of(path@) && path@.len() > prefix@.len() ==> {
                &&& prefix@.len() + route@.len() == path@.len()
                &&& route@[0] == '/'
                &&& forall|i: int|
                    1 <= i < route@.len() ==> route@[i] == path@[prefix@.len() + i]
            }
        },
{
    if let Some(prefix) = prefix {
        if path@ == prefix@ {
            assert(prefix@ =~= path@.subrange(0, prefix@.len() as int));
        }
    }
}

/// Both ways to ask for the route give the same.
pub proof fn law_web_route_from_location(
    history: &WebHistory,
    location: &Location,
    route: String,
    current: String,
)
    requires
        call_ensures(WebHistory::route_from_location, (history, location), route),
        call_ensures(WebHistory::current_route, (history, location), current),
    ensures
        route@ == current@,
{
}

/// Where the address has a slash right after the prefix, prefix and route make
/// up the address.
pub proof fn law_web_prefix_and_route(
    history: &WebHistory,
    location: &Location,
    path: String,
    prefix: String,
    route: String,
)
    requires
        call_ensures(Location::path, (location,), path),
        call_ensures(WebHistory::current_prefix, (history,), Some(prefix)),
        call_ensures(WebHistory::current_route, (history, location), route),
        prefix@.is_prefix_of(path@),
        path@.len() > prefix@.len(),
        path@[prefix@.len() as int] == '/',
    ensures
        prefix@ + route@ == path@,
{
    law_web_route(history, location, path, Some(prefix), route);
    assert(prefix@ + route@ =~= path@);
}

/// The address of a route is the prefix, if there is one, then the route.
pub proof fn law_web_full_path(
    history: &WebHistory,
    state: &String,
    prefix: Option<String>,
    url: String,
)
    requires
        call_ensures(WebHistory::current_prefix, (history,), prefix),
        call_ensures(WebHistory::full_path, (history, state), url),
    ensures
        prefix is None ==> url@ == state@,
        prefix matches Some(prefix) ==> url@ == prefix@ + state@,
{
}

/// At startup the entry gets the prefix, then the route that is shown.
pub proof fn law_web_startup(
    history: &WebHistory,
    location: &Location,
    prefix: Option<String>,
    route: String,
    control: ScrollControl,
    manual: bool,
    call: ReplaceCall,
)
    requires
        call_ensures(WebHistory::current_prefix, (history,), prefix),
        call_ensures(WebHistory::current_route, (history, location), route),
        call_ensures(WebHistory::scroll, (history,), control),
        call_ensures(ScrollControl::is_manual, (&control,), manual),
        call_ensures(WebHistory::initial_call, (history, location), call),
    ensures
        call.url matches Some(url) && url@ == (match prefix {
            Some(prefix) => prefix@ + route@,
            None => route@,
        }),
        manual <==> call.scroll is Window,
{
}

/// A push does nothing exactly if its route is the one that is shown. Any other
/// route gets an entry of its own, with the prefix and the route for its
/// address, whatever the address is that is shown. Before that, the entry that
/// is left keeps its address and gets the position of the window.
pub proof fn law_web_push(
    history: &WebHistory,
    state: String,
    location: &Location,
    prefix: Option<String>,
    route: String,
    control: ScrollControl,
    manual: bool,
    plan: Option<PushPlan>,
)
    requires
        call_ensures(WebHistory::current_prefix, (history,), prefix),
        call_ensures(WebHistory::current_route, (history, location), route),
        call_ensures(WebHistory::scroll, (history,), control),
        call_ensures(ScrollControl::is_manual, (&control,), manual),
        call_ensures(WebHistory::push, (history, state, location), plan),
    ensures
        plan is None <==> state@ == route@,
        plan matches Some(plan) ==> {
            &&& prefix is None ==> plan.push.url@ == state@
            &&& prefix matches Some(prefix) ==> plan.push.url@ == prefix@ + state@
            &&& manual <==> plan.push.scroll is Window
            &&& plan.keep.url is None
            &&& plan.keep.scroll is Window
        },
{
}

/// What a push writes does not depend on the address that is shown.
pub proof fn law_web_push_from_anywhere(
    history: &WebHistory,
    state: String,
    here: &Location,
    there: &Location,
    plan_here: PushPlan,
    plan_there: PushPlan,
)
    requires
        call_ensures(WebHistory::push, (history, state, here), Some(plan_here)),
        call_ensures(WebHistory::push, (history, state, there), Some(plan_there)),
    ensures
        plan_here.push.url@ == plan_there.push.url@,
        plan_here.push.scroll == plan_there.push.scroll,
{
}

/// Once the address is shown that a push wrote, its route is the one that is
/// shown, and pushing it again does nothing. Behind a prefix this is so of routes
/// that start with a slash, otherwise of routes that are not empty.
pub proof fn law_web_pushed_route_is_shown(
    history: &WebHistory,
    state: String,
    before: &Location,
    plan: PushPlan,
    after: &Location,
    path: String,
    prefix: Option<String>,
    route: String,
    again: Option<PushPlan>,
)
    requires
        call_ensures(WebHistory::push, (history, state, before), Some(plan)),
        call_ensures(Location::path, (after,), path),
        path@ == plan.push.url@,
        call_ensures(WebHistory::current_prefix, (history,), prefix),
        call_ensures(WebHistory::current_route, (history, after), route),
        call_ensures(WebHistory::push, (history, state, after), again),
        state@.len() > 0,
        prefix is Some ==> state@.first() == '/',
    ensures
        route@ == state@,
        again is None,
{
    law_web_route(history, after, path, prefix, route);
    if let Some(prefix) = prefix {
        assert(prefix@ =~= path@.subrange(0, prefix@.len() as int));
        assert(route@ =~= state@);
    }
}

/// A replacement gives the entry the prefix, then the route, whichever it is.
pub proof fn law_web_replace(
    history: &WebHistory,
    state: String,
    prefix: Option<String>,
    control: ScrollControl,
    manual: bool,
    call: ReplaceCall,
)
    requires
        call_ensures(WebHistory::current_prefix, (history,), prefix),
        call_ensures(WebHistory::scroll, (history,), control),
        call_ensures(ScrollControl::is_manual, (&control,), manual),
        call_ensures(WebHistory::replace, (history, state), call),
    ensures
        call.url matches Some(url) && url@ == (match prefix {
            Some(prefix) => prefix@ + state@,
            None => state@,
        }),
        manual <==> call.scroll is Window,
{
}

/// A rejected replacement is rejected and nothing more. An accepted one arrives,
/// at the top if the provider controls scrolling.
pub proof fn law_web_after_replace(
    history: &WebHistory,
    accepted: bool,
    control: ScrollControl,
    manual: bool,
    outcome: ReplaceOutcome,
)
    requires
        call_ensures(WebHistory::scroll, (history,), control),
        call_ensures(ScrollControl::is_manual, (&control,), manual),
        call_ensures(WebHistory::after_replace, (history, accepted), outcome),
    ensures
        !accepted <==> outcome is Rejected,
        outcome matches ReplaceOutcome::Arrived { to_top } ==> to_top == manual,
{
}

/// A push is dropped exactly if the address stayed what it was and the target
/// resolves to another one.
pub proof fn law_silent_drop(
    before: &str,
    after: &str,
    resolved_target: Option<&str>,
    dropped: bool,
)
    requires
        call_ensures(push_was_silently_dropped, (before, after, resolved_target), dropped),
    ensures
        before@ != after@ ==> !dropped,
        resolved_target is None ==> !dropped,
        resolved_target matches Some(target) ==> (target@ == before@ ==> !dropped) && (before@
            == after@ && target@ != before@ ==> dropped),
{
}

/// A report tells of a failure exactly if the push threw, or if the address
/// stayed what it was and the target resolves to another one.
pub proof fn law_report_has_failed(report: &PushReport, failed: bool)
    requires
        call_ensures(PushReport::has_failed, (report,), failed),
    ensures
        report is Threw ==> failed,
        report matches PushReport::Returned { before, after, resolved } ==> {
            &&& before@ != after@ ==> !failed
            &&& resolved is None ==> !failed
            &&& resolved matches Some(target) ==> {
                &&& target@ == before@ ==> !failed
                &&& before@ == after@ && target@ != before@ ==> failed
            }
        },
{
}

/// A report tells of a failure as the question for a drop is answered of what
/// it holds.
pub proof fn law_report_and_drop(
    before: String,
    after: String,
    resolved: Option<String>,
    before_text: &str,
    after_text: &str,
    target: Option<&str>,
    failed: bool,
    dropped: bool,
)
    requires
        before@ == before_text@,
        after@ == after_text@,
        match resolved {
            Some(resolved) => target matches Some(target) && target@ == resolved@,
            None => target is None,
        },
        call_ensures(
            PushReport::has_failed,
            (&(PushReport::Returned { before, after, resolved }),),
            failed,
        ),
        call_ensures(push_was_silently_dropped, (before_text, after_text, target), dropped),
    ensures
        failed == dropped,
{
}

/// A new document has not been left. The first fallback of a document leaves it
/// for the address, every other one stays, and after any of them the document
/// counts as left.
pub proof fn law_fallback(guard: &mut FallbackGuard, url: &str, action: Fallback)
    requires
        call_ensures(FallbackGuard::fallback_navigation, (guard, url), action),
    ensures
        !old(guard).is_taken() ==> (action matches Fallback::Navigate(target) && target@ == url@),
        old(guard).is_taken() ==> (action matches Fallback::AlreadyUsed(target) && target@
            == url@),
        final(guard).is_taken(),
{
}

/// The first fallback of a new document leaves it for the address, the second
/// one stays.
pub proof fn law_second_fallback_stays(
    fresh: FallbackGuard,
    first: &mut FallbackGuard,
    second: &mut FallbackGuard,
    url: &str,
    other: &str,
    action: Fallback,
    next: Fallback,
)
    requires
        call_ensures(FallbackGuard::new, (), fresh),
        *old(first) == fresh,
        call_ensures(FallbackGuard::fallback_navigation, (first, url), action),
        *old(second) == *final(first),
        call_ensures(FallbackGuard::fallback_navigation, (second, other), next),
    ensures
        action matches Fallback::Navigate(target) && target@ == url@,
        next matches Fallback::AlreadyUsed(target) && target@ == other@,
{
}

/// A push that threw, or after which the address stayed what it was although the
/// target resolves to another one, falls back, and uses up the fallback of the
/// document. Any other push arrives, at the top if the provider controls
/// scrolling, and leaves the fallback as it was. In particular a push to the
/// address that the document already has arrives.
pub proof fn law_web_after_push(
    history: &WebHistory,
    url: &str,
    report: &PushReport,
    guard: &mut FallbackGuard,
    control: ScrollControl,
    manual: bool,
    outcome: PushOutcome,
)
    requires
        call_ensures(WebHistory::scroll, (history,), control),
        call_ensures(ScrollControl::is_manual, (&control,), manual),
        call_ensures(WebHistory::after_push, (history, url, report, guard), outcome),
    ensures
        ({
            let failed = match report {
                PushReport::Threw => true,
                PushReport::Returned { before, after, resolved } => {
                    before@ == after@ && resolved is Some && resolved->0@ != before@
                },
            };
            &&& !failed ==> {
                &&& outcome matches PushOutcome::Arrived { to_top } && to_top == manual
                &&& final(guard).is_taken() == old(guard).is_taken()
            }
            &&& failed && !old(guard).is_taken() ==> (outcome matches PushOutcome::FellBack(action)
                && action matches Fallback::Navigate(target) && target@ == url@)
            &&& failed && old(guard).is_taken() ==> (outcome matches PushOutcome::FellBack(action)
                && action matches Fallback::AlreadyUsed(target) && target@ == url@)
            &&& failed ==> final(guard).is_taken()
        }),
{
}

/// Of two pushes of a document, by whatever providers, at most one leaves it.
pub proof fn law_two_pushes_leave_once(
    first_history: &WebHistory,
    second_history: &WebHistory,
    url: &str,
    other: &str,
    report: &PushReport,
    next_report: &PushReport,
    first: &mut FallbackGuard,
    second: &mut FallbackGuard,
    outcome: PushOutcome,
    next: PushOutcome,
)
    requires
        call_ensures(WebHistory::after_push, (first_history, url, report, first), outcome),
        *old(second) == *final(first),
        call_ensures(WebHistory::after_push, (second_history, other, next_report, second), next),
        outcome matches PushOutcome::FellBack(action) && action is Navigate,
    ensures
        !(next matches PushOutcome::FellBack(action) && action is Navigate),
{
}

/// A provider stands at the path and controls scrolling as it was made to: what
/// stands before every route is the path, then a `#`.
pub proof fn law_hash_prefix(
    pathname: String,
    do_scroll_restoration: bool,
    history: HashHistory,
    prefix: Option<String>,
    control: ScrollControl,
    manual: bool,
)
    requires
        call_ensures(HashHistory::new, (pathname, do_scroll_restoration), history),
        call_ensures(HashHistory::current_prefix, (&history,), prefix),
        call_ensures(HashHistory::scroll, (&history,), control),
        call_ensures(ScrollControl::is_manual, (&control,), manual),
    ensures
        prefix matches Some(prefix) && prefix@ == pathname@.push('#'),
        manual == do_scroll_restoration,
{
    assert(pathname@ + seq!['#'] =~= pathname@.push('#'));
}

/// The route is what stands behind the `#` characters that the fragment starts
/// with, and the root if there is no fragment. The path plays no part in it.
pub proof fn law_hash_route(history: &HashHistory, hash: &str, route: String)
    requires
        call_ensures(HashHistory::current_route, (history, hash), route),
    ensures
        hash@.len() == 0 ==> route@ == seq!['/'],
        hash@.len() > 0 ==> {
            &&& route@.len() <= hash@.len()
            &&& route@ == hash@.skip(hash@.len() - route@.len())
            &&& forall|i: int| 0 <= i < hash@.len() - route@.len() ==> hash@[i] == '#'
            &&& route@.len() > 0 ==> route@[0] != '#'
        },
{
    text::law_trimmed_start(hash@, '#');
    if hash@.len() > 0 {
        assert(route@ =~= hash@.skip(hash@.len() - route@.len()));
    }
}

/// The address of a route is what stands before every route, then the route.
pub proof fn law_hash_full_path(
    history: &HashHistory,
    state: &String,
    prefix: Option<String>,
    url: String,
)
    requires
        call_ensures(HashHistory::current_prefix, (history,), prefix),
        call_ensures(HashHistory::full_path, (history, state), url),
    ensures
        prefix matches Some(prefix) && url@ == prefix@ + state@,
{
}

/// At startup the entry gets the address of the route that is shown.
pub proof fn law_hash_startup(
    history: &HashHistory,
    hash: &str,
    prefix: Option<String>,
    route: String,
    control: ScrollControl,
    manual: bool,
    call: ReplaceCall,
)
    requires
        call_ensures(HashHistory::current_prefix, (history,), prefix),
        call_ensures(HashHistory::current_route, (history, hash), route),
        call_ensures(HashHistory::scroll, (history,), control),
        call_ensures(ScrollControl::is_manual, (&control,), manual),
        call_ensures(HashHistory::initial_call, (history, hash), call),
    ensures
        prefix matches Some(prefix) && (call.url matches Some(url) && url@ == prefix@ + route@),
        manual <==> call.scroll is Window,
{
}

/// A push does nothing exactly if its route is the one that is shown. Any other
/// route gets an entry of its own, with the path, a `#` and the route for its
/// address, whatever the fragment is that is shown. Before that, the entry that
/// is left keeps its address and gets the position of the window.
pub proof fn law_hash_push(
    history: &HashHistory,
    state: String,
    hash: &str,
    prefix: Option<String>,
    route: String,
    control: ScrollControl,
    manual: bool,
    plan: Option<PushPlan>,
)
    requires
        call_ensures(HashHistory::current_prefix, (history,), prefix),
        call_ensures(HashHistory::current_route, (history, hash), route),
        call_ensures(HashHistory::scroll, (history,), control),
        call_ensures(ScrollControl::is_manual, (&control,), manual),
        call_ensures(HashHistory::push, (history, state, hash), plan),
    ensures
        plan is None <==> state@ == route@,
        plan matches Some(plan) ==> {
            &&& prefix matches Some(prefix) && plan.push.url@ == prefix@ + state@
            &&& manual <==> plan.push.scroll is Window
            &&& plan.keep.url is None
            &&& plan.keep.scroll is Window
        },
{
}

/// What a push writes does not depend on the fragment that is shown.
pub proof fn law_hash_push_from_anywhere(
    history: &HashHistory,
    state: String,
    here: &str,
    there: &str,
    plan_here: PushPlan,
    plan_there: PushPlan,
)
    requires
        call_ensures(HashHistory::push, (history, state, here), Some(plan_here)),
        call_ensures(HashHistory::push, (history, state, there), Some(plan_there)),
    ensures
        plan_here.push.url@ == plan_there.push.url@,
        plan_here.push.scroll == plan_there.push.scroll,
{
}

/// From its path on, the address that a push wrote is the fragment. Once that
/// fragment is shown, its route is the one that is shown, and pushing it again
/// does nothing, if the route does not start with a `#`.
pub proof fn law_hash_pushed_route_is_shown(
    pathname: String,
    do_scroll_restoration: bool,
    history: HashHistory,
    state: String,
    before: &str,
    plan: PushPlan,
    after: &str,
    route: String,
    again: Option<PushPlan>,
)
    requires
        call_ensures(HashHistory::new, (pathname, do_scroll_restoration), history),
        call_ensures(HashHistory::push, (&history, state, before), Some(plan)),
        plan.push.url@ == pathname@ + after@,
        call_ensures(HashHistory::current_route, (&history, after), route),
        call_ensures(HashHistory::push, (&history, state, after), again),
        state@.len() > 0 ==> state@.first() != '#',
    ensures
        route@ == state@,
        again is None,
{
    let url = plan.push.url@;
    assert(after@ =~= url.skip(pathname@.len() as int));
    assert(url.skip(pathname@.len() as int) =~= seq!['#'] + state@);
    crate::hash_history::law_route_is_read_back(state@);
}

/// A replacement gives the entry the address of the route, whichever it is.
pub proof fn law_hash_replace(
    history: &HashHistory,
    state: String,
    prefix: Option<String>,
    control: ScrollControl,
    manual: bool,
    call: ReplaceCall,
)
    requires
        call_ensures(HashHistory::current_prefix, (history,), prefix),
        call_ensures(HashHistory::scroll, (history,), control),
        call_ensures(ScrollControl::is_manual, (&control,), manual),
        call_ensures(HashHistory::replace, (history, state), call),
    ensures
        prefix matches Some(prefix) && (call.url matches Some(url) && url@ == prefix@ + state@),
        manual <==> call.scroll is Window,
{
}

/// The page is scrolled to its top exactly after a write that was accepted, of a
/// provider that controls scrolling.
pub proof fn law_hash_after_write(
    history: &HashHistory,
    accepted: bool,
    control: ScrollControl,
    manual: bool,
    to_top: bool,
)
    requires
        call_ensures(HashHistory::scroll, (history,), control),
        call_ensures(ScrollControl::is_manual, (&control,), manual),
        call_ensures(HashHistory::after_write, (history, accepted), to_top),
    ensures
        to_top <==> accepted && manual,
{
}

/// Control that was switched on is manual, takes positions from the window,
/// scrolls to the top after a navigation and restores what an entry keeps.
/// Control that was switched off does none of this.
pub proof fn law_scroll_control<N>(
    do_scroll_restoration: bool,
    control: ScrollControl,
    manual: bool,
    source: ScrollSource,
    to_top: bool,
    saved: Option<ScrollPosition<N>>,
    target: Option<ScrollPosition<N>>,
)
    requires
        call_ensures(ScrollControl::new, (do_scroll_restoration,), control),
        call_ensures(ScrollControl::is_manual, (&control,), manual),
        call_ensures(ScrollControl::scroll_pos, (&control,), source),
        call_ensures(ScrollControl::handle_nav, (&control,), to_top),
        call_ensures(ScrollControl::on_popstate::<N>, (&control, saved), target),
    ensures
        manual == do_scroll_restoration,
        to_top == do_scroll_restoration,
        source is Window <==> do_scroll_restoration,
        do_scroll_restoration ==> target == saved,
        !do_scroll_restoration ==> target is None,
{
}

/// A window is at the coordinates that it tells, each in its place. One that it
/// does not tell is a default one.
pub proof fn law_position_of_window<N: Default>(
    x: Option<N>,
    y: Option<N>,
    position: ScrollPosition<N>,
)
    requires
        call_ensures(ScrollPosition::<N>::of_window, (x, y), position),
    ensures
        x is Some ==> position.x == x->0,
        y is Some ==> position.y == y->0,
        x is None ==> call_ensures(N::default, (), position.x),
        y is None ==> call_ensures(N::default, (), position.y),
{
}

/// An entry gets the coordinates that the window tells, each in its place, if
/// its position is taken from the window, and default ones in all other cases.
pub proof fn law_position_of_source<N: Default>(
    source: ScrollSource,
    x: Option<N>,
    y: Option<N>,
    position: ScrollPosition<N>,
)
    requires
        call_ensures(ScrollSource::position::<N>, (source, x, y), position),
    ensures
        source is Window && x is Some ==> position.x == x->0,
        source is Window && y is Some ==> position.y == y->0,
        source is Origin || x is None ==> call_ensures(N::default, (), position.x),
        source is Origin || y is None ==> call_ensures(N::default, (), position.y),
{
}

/// An entry keeps the first coordinate first and the second one second.
pub proof fn law_position_to_state<N>(position: ScrollPosition<N>, state: [N; 2])
    requires
        call_ensures(ScrollPosition::<N>::to_state, (position,), state),
    ensures
        state@.len() == 2,
        state@[0] == position.x,
        state@[1] == position.y,
{
}

/// The first number of an entry is the first coordinate, the second number the
/// second. An entry that lacks one of them keeps no position.
pub proof fn law_position_from_state<N>(
    first: Option<N>,
    second: Option<N>,
    position: Option<ScrollPosition<N>>,
)
    requires
        call_ensures(ScrollPosition::<N>::get_current, (first, second), position),
    ensures
        position is None <==> first is None || second is None,
        position matches Some(position) ==> first == Some(position.x) && second == Some(
            position.y,
        ),
{
}

/// What an entry was given to keep is what is read back from it.
pub proof fn law_position_is_read_back<N>(
    position: ScrollPosition<N>,
    state: [N; 2],
    saved: Option<ScrollPosition<N>>,
)
    requires
        call_ensures(ScrollPosition::<N>::to_state, (position,), state),
        call_ensures(
            ScrollPosition::<N>::get_current,
            (Some(state@[0]), Some(state@[1])),
            saved,
        ),
    ensures
        saved == Some(position),
{
}

/// The call that keeps the scroll position leaves the address alone and takes
/// the position from the window.
pub proof fn law_update_scroll(call: ReplaceCall)
    requires
        call_ensures(ReplaceCall::update_scroll, (), call),
    ensures
        call.url is None,
        call.scroll is Window,
{
}

} // verus!
