//! What a history provider has the browser write, and what is left to do once
//! the browser has answered.

use crate::fallback::{Fallback, FallbackText};
use crate::scroll::{scroll_source, ScrollSource};
use vstd::prelude::*;

verus! {

/// A call of `replaceState`, which changes the current history entry.
#[derive(Debug, PartialEq, Eq)]
pub struct ReplaceCall {
    /// The address to give the entry, if it gets another one.
    pub url: Option<String>,
    /// Where the scroll position that the entry keeps is taken from.
    pub scroll: ScrollSource,
}

/// A call of `pushState`, which adds a history entry.
#[derive(Debug, PartialEq, Eq)]
pub struct PushCall {
    /// The address of the entry.
    pub url: String,
    /// Where the scroll position that the entry keeps is taken from.
    pub scroll: ScrollSource,
}

/// The calls that show another route, in their order.
#[derive(Debug, PartialEq, Eq)]
pub struct PushPlan {
    /// Updates the scroll position of the entry that is left.
    pub keep: ReplaceCall,
    /// Adds the entry of the route.
    pub push: PushCall,
}

impl ReplaceCall {
    /// The call that has the current entry keep the position of the window, at
    /// the address that it has.
    pub open spec fn keeps_scroll(&self) -> bool {
        self.url is None && self.scroll == ScrollSource::Window
    }

    /// The call that gives the current entry the address `url`.
    pub open spec fn writes(&self, url: Seq<char>, restores: bool) -> bool {
        self.url.deep_view() == Some(url) && self.scroll == scroll_source(restores)
    }

    /// The call that has the current entry keep the position of the window.
    pub fn update_scroll() -> (call: Self)
        ensures
            call.keeps_scroll(),
    {
        ReplaceCall { url: None, scroll: ScrollSource::Window }
    }
}

impl PushPlan {
    /// The calls that add an entry with the address `url`.
    pub open spec fn writes(&self, url: Seq<char>, restores: bool) -> bool {
        &&& self.keep.keeps_scroll()
        &&& self.push.url@ == url
        &&& self.push.scroll == scroll_source(restores)
    }
}

/// What is left to do once the browser has answered a push.
#[derive(Debug, PartialEq, Eq)]
pub enum PushOutcome {
    /// The document shows the route. The page has to be scrolled to its top if
    /// `to_top`.
    Arrived { to_top: bool },
    /// The document could not be brought to the route by the push.
    FellBack(Fallback),
}

/// What is left to do once the browser has answered a replacement.
#[derive(Clone, Copy, Debug, PartialEq, Eq, Structural)]
pub enum ReplaceOutcome {
    /// The document shows the route. The page has to be scrolled to its top if
    /// `to_top`.
    Arrived { to_top: bool },
    /// The address stays where it was.
    Rejected,
}

/// `PushOutcome` over the text of the address.
pub enum PushOutcomeText {
    Arrived { to_top: bool },
    FellBack(FallbackText),
}

impl View for PushOutcome {
    type V = PushOutcomeText;

    open spec fn view(&self) -> PushOutcomeText {
        match self {
            PushOutcome::Arrived { to_top } => PushOutcomeText::Arrived { to_top: *to_top },
            PushOutcome::FellBack(action) => PushOutcomeText::FellBack(action@),
        }
    }
}

/// What is left to do after the push of `url`. A push that failed falls back to
/// a navigation, of which the document may have `taken` its one before.
pub open spec fn push_outcome(
    taken: bool,
    restores: bool,
    url: Seq<char>,
    failed: bool,
) -> PushOutcomeText {
    if failed {
        PushOutcomeText::FellBack(crate::fallback::fallback(taken, url))
    } else {
        PushOutcomeText::Arrived { to_top: restores }
    }
}

/// A push that the browser has answered.
pub struct PushAttempt {
    /// Whether the provider restores scroll positions.
    pub restores: bool,
    /// The address that was pushed.
    pub url: Seq<char>,
    /// Whether the document did not get there.
    pub failed: bool,
}

/// The outcomes of the pushes of one document, in their order.
pub open spec fn push_outcomes(taken: bool, attempts: Seq<PushAttempt>) -> Seq<PushOutcomeText>
    decreases attempts.len(),
{
    if attempts.len() == 0 {
        seq![]
    } else {
        let attempt = attempts.first();
        seq![push_outcome(taken, attempt.restores, attempt.url, attempt.failed)] + push_outcomes(
            taken || attempt.failed,
            attempts.drop_first(),
        )
    }
}

/// Whether one of the first `count` pushes failed.
pub open spec fn some_failed(attempts: Seq<PushAttempt>, count: int) -> bool {
    exists|k: int| 0 <= k < count && (#[trigger] attempts[k]).failed
}

/// Whether the document is left.
pub open spec fn leaves_document(outcome: PushOutcomeText) -> bool {
    outcome matches PushOutcomeText::FellBack(FallbackText::Navigate(_))
}

/// The outcome of a push depends on the pushes before it only by whether one of
/// them failed.
pub proof fn law_outcome_of_each_push(taken: bool, attempts: Seq<PushAttempt>, i: int)
    requires
        0 <= i < attempts.len(),
    ensures
        push_outcomes(taken, attempts).len() == attempts.len(),
        push_outcomes(taken, attempts)[i] == push_outcome(
            taken || some_failed(attempts, i),
            attempts[i].restores,
            attempts[i].url,
            attempts[i].failed,
        ),
    decreases attempts.len(),
{
    let first = attempts.first();
    let rest = attempts.drop_first();
    if rest.len() == 0 {
        assert(push_outcomes(taken || first.failed, rest).len() == 0);
    } else {
        law_outcome_of_each_push(taken || first.failed, rest, if i > 0 {
            i - 1
        } else {
            0
        });
    }
    if i > 0 {
        assert(rest[i - 1] == attempts[i]);
        assert(some_failed(attempts, i) == (first.failed || some_failed(rest, i - 1))) by {
            if some_failed(rest, i - 1) {
                let k = choose|k: int| 0 <= k < i - 1 && (#[trigger] rest[k]).failed;
                assert(attempts[k + 1].failed);
            }
            if some_failed(attempts, i) {
                let k = choose|k: int| 0 <= k < i && (#[trigger] attempts[k]).failed;
                if k > 0 {
                    assert(rest[k - 1].failed);
                }
            }
        }
    }
}

/// A document is left at most once, and never if it has been left before.
pub proof fn law_one_navigation_per_document(
    taken: bool,
    attempts: Seq<PushAttempt>,
    i: int,
    j: int,
)
    requires
        0 <= i < attempts.len(),
        0 <= j < attempts.len(),
        leaves_document(push_outcomes(taken, attempts)[i]),
        leaves_document(push_outcomes(taken, attempts)[j]),
    ensures
        i == j,
        !taken,
{
    law_outcome_of_each_push(taken, attempts, i);
    law_outcome_of_each_push(taken, attempts, j);
    if i < j {
        assert(attempts[i].failed);
        assert(some_failed(attempts, j));
    }
    if j < i {
        assert(attempts[j].failed);
        assert(some_failed(attempts, i));
    }
}

/// The first push of a document that fails leaves the document for the address
/// that was pushed.
pub proof fn law_first_failure_navigates(attempts: Seq<PushAttempt>, i: int)
    requires
        0 <= i < attempts.len(),
        attempts[i].failed,
        !some_failed(attempts, i),
    ensures
        push_outcomes(false, attempts)[i] == PushOutcomeText::FellBack(
            FallbackText::Navigate(attempts[i].url),
        ),
{
    law_outcome_of_each_push(false, attempts, i);
}

/// A push that does not fail never leaves the document.
pub proof fn law_no_navigation_without_failure(taken: bool, attempts: Seq<PushAttempt>, i: int)
    requires
        0 <= i < attempts.len(),
        !attempts[i].failed,
    ensures
        !leaves_document(push_outcomes(taken, attempts)[i]),
{
    law_outcome_of_each_push(taken, attempts, i);
}

} // verus!
