//! Leaving the document when the History API would not take a push.

use vstd::prelude::*;

verus! {

/// What a document does that cannot reach an address through the History API.
#[derive(Debug, PartialEq, Eq)]
pub enum Fallback {
    /// Leave the document for this address.
    Navigate(String),
    /// Stay: this document has left for an address before.
    AlreadyUsed(String),
}

/// `Fallback` over the text of the address.
pub enum FallbackText {
    Navigate(Seq<char>),
    AlreadyUsed(Seq<char>),
}

impl View for Fallback {
    type V = FallbackText;

    open spec fn view(&self) -> FallbackText {
        match self {
            Fallback::Navigate(url) => FallbackText::Navigate(url@),
            Fallback::AlreadyUsed(url) => FallbackText::AlreadyUsed(url@),
        }
    }
}

/// What a document does to reach `url` without the History API: it leaves for
/// `url`, unless it has done so before.
pub open spec fn fallback(taken: bool, url: Seq<char>) -> FallbackText {
    if taken {
        FallbackText::AlreadyUsed(url)
    } else {
        FallbackText::Navigate(url)
    }
}

/// Remembers, for one document, whether it has left for an address.
///
/// Only one such navigation is ever taken per document: a page that navigated
/// itself during startup would otherwise reload forever.
#[derive(Debug)]
pub struct FallbackGuard {
    taken: bool,
}

impl FallbackGuard {
    /// Whether the document has left for an address.
    pub closed spec fn is_taken(&self) -> bool {
        self.taken
    }

    /// The guard of a new document.
    pub fn new() -> (guard: Self)
        ensures
            !guard.is_taken(),
    {
        FallbackGuard { taken: false }
    }

    /// Leave the document for `url` when the History API would not take it.
    pub fn fallback_navigation(&mut self, url: &str) -> (action: Fallback)
        ensures
            action@ == fallback(old(self).is_taken(), url@),
            final(self).is_taken(),
    {
        let taken = self.taken;
        self.taken = true;
        if taken {
            Fallback::AlreadyUsed(url.to_owned())
        } else {
            Fallback::Navigate(url.to_owned())
        }
    }
}

} // verus!
