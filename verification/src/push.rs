//! Whether the browser did what a push asked of it.

use crate::text;
use vstd::prelude::*;

verus! {

/// What the browser answered to a push.
#[derive(Debug)]
pub enum PushReport {
    /// It returned. The document was at `before` and is now at `after`, and
    /// the address that was pushed means `resolved` to it, if anything.
    Returned { before: String, after: String, resolved: Option<String> },
    /// It threw.
    Threw,
}

/// Whether a push that returned was dropped: the document stayed where it was,
/// although the target resolves to another address.
pub open spec fn silently_dropped(
    before: Seq<char>,
    after: Seq<char>,
    resolved: Option<Seq<char>>,
) -> bool {
    before == after && resolved is Some && resolved->0 != before
}

impl PushReport {
    /// Whether the document did not get to the address that was pushed.
    pub open spec fn failed(&self) -> bool {
        match self {
            PushReport::Returned { before, after, resolved } => silently_dropped(
                before@,
                after@,
                resolved.deep_view(),
            ),
            PushReport::Threw => true,
        }
    }

    /// Whether the document did not get to the address that was pushed.
    pub fn has_failed(&self) -> (failed: bool)
        ensures
            failed == self.failed(),
    {
        match self {
            PushReport::Returned { before, after, resolved } => {
                let target: Option<&str> = match resolved {
                    Some(resolved) => Some(resolved.as_str()),
                    None => None,
                };
                push_was_silently_dropped(before.as_str(), after.as_str(), target)
            },
            PushReport::Threw => true,
        }
    }
}

/// `pushState` returned normally, yet the address did not move.
///
/// WebKit drops a push without throwing when a Navigation API `navigate`
/// listener cancels it or the frame is detached. A push to the address the
/// document already has is the one honest way for the location to stay put,
/// so that case, and a target that does not resolve at all, are not drops.
pub fn push_was_silently_dropped(before: &str, after: &str, resolved_target: Option<&str>) -> (dropped:
    bool)
    ensures
        dropped == silently_dropped(before@, after@, resolved_target.deep_view()),
{
    match resolved_target {
        Some(target) => text::same(before, after) && !text::same(target, before),
        None => false,
    }
}

/// A push that moved the address, a push to the address that the document
/// already has, and a push of a target that does not resolve are not drops.
pub proof fn law_honest_pushes_are_not_drops(
    before: Seq<char>,
    after: Seq<char>,
    resolved: Option<Seq<char>>,
)
    requires
        before != after || resolved == Some(before) || resolved is None,
    ensures
        !silently_dropped(before, after, resolved),
{
}

/// A push that left the document where it was, although its target is another
/// address, is a drop.
pub proof fn law_unmoved_address_is_a_drop(before: Seq<char>, target: Seq<char>)
    requires
        target != before,
    ensures
        silently_dropped(before, before, Some(target)),
{
}

} // verus!
