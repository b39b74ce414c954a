//! Keeping and restoring the scroll position along with the history.
//!
//! Coordinates are of any type `N`: nothing here computes with them.

use vstd::prelude::*;

verus! {

/// How far a page is scrolled.
#[derive(Clone, Copy, Debug, Default, PartialEq)]
pub struct ScrollPosition<N> {
    pub x: N,
    pub y: N,
}

impl<N> ScrollPosition<N> {
    /// The position of a window, from what the window tells of its two
    /// coordinates. A coordinate that it does not tell is the default one.
    pub fn of_window(x: Option<N>, y: Option<N>) -> (position: Self) where N: Default
        ensures
            is_coordinate(x, position.x),
            is_coordinate(y, position.y),
    {
        ScrollPosition { x: x.unwrap_or_default(), y: y.unwrap_or_default() }
    }

    /// The position as it is kept in a history entry: `x`, then `y`.
    pub fn to_state(self) -> (state: [N; 2])
        ensures
            state@ == position_state(self),
    {
        [self.x, self.y]
    }

    /// The position that a history entry keeps, from the numbers that stand
    /// first and second in it. An entry that lacks one of them keeps none.
    pub fn get_current(first: Option<N>, second: Option<N>) -> (position: Option<Self>)
        ensures
            position == kept_position(first, second),
    {
        match (first, second) {
            (Some(x), Some(y)) => Some(ScrollPosition { x, y }),
            _ => None,
        }
    }
}

/// `coordinate` is the one that is told, or a default one if none is told.
pub open spec fn is_coordinate<N: Default>(told: Option<N>, coordinate: N) -> bool {
    match told {
        Some(told) => coordinate == told,
        None => call_ensures(N::default, (), coordinate),
    }
}

/// The position that a history entry keeps whose first and second numbers are
/// these.
pub open spec fn kept_position<N>(first: Option<N>, second: Option<N>) -> Option<
    ScrollPosition<N>,
> {
    if first is Some && second is Some {
        Some(ScrollPosition { x: first->0, y: second->0 })
    } else {
        None
    }
}

/// The numbers that a history entry is given to keep a position.
pub open spec fn position_state<N>(position: ScrollPosition<N>) -> Seq<N> {
    seq![position.x, position.y]
}

/// Where a provider scrolls to when the browser moves to an entry that keeps
/// the position `saved`.
pub open spec fn popstate_target<N>(restores: bool, saved: Option<ScrollPosition<N>>) -> Option<
    ScrollPosition<N>,
> {
    if restores {
        saved
    } else {
        None
    }
}

/// Where a provider takes the position for a history entry from.
pub open spec fn scroll_source(restores: bool) -> ScrollSource {
    if restores {
        ScrollSource::Window
    } else {
        ScrollSource::Origin
    }
}

/// The position that a history entry was given to keep is the one that is
/// scrolled to when the browser comes back to the entry, if the provider
/// restores positions; otherwise nothing is scrolled.
pub proof fn law_kept_position_is_restored<N>(restores: bool, position: ScrollPosition<N>)
    ensures
        ({
            let state = position_state(position);
            let saved = kept_position(Some(state[0]), Some(state[1]));
            popstate_target(restores, saved) == (if restores {
                Some(position)
            } else {
                None
            })
        }),
{
}

/// Where the position that goes into a history entry is taken from.
#[derive(Clone, Copy, Debug, PartialEq, Eq, Structural)]
pub enum ScrollSource {
    /// From the window.
    Window,
    /// Nowhere: the entry gets the default position.
    Origin,
}

impl ScrollSource {
    /// The position that goes into a history entry, from what the window tells
    /// of its two coordinates.
    pub fn position<N: Default>(self, x: Option<N>, y: Option<N>) -> (position: ScrollPosition<N>)
        ensures
            match self {
                ScrollSource::Window => {
                    &&& is_coordinate(x, position.x)
                    &&& is_coordinate(y, position.y)
                },
                ScrollSource::Origin => {
                    &&& call_ensures(N::default, (), position.x)
                    &&& call_ensures(N::default, (), position.y)
                },
            },
    {
        match self {
            ScrollSource::Window => ScrollPosition::of_window(x, y),
            ScrollSource::Origin => ScrollPosition { x: N::default(), y: N::default() },
        }
    }
}

/// Whether a history provider controls how the page scrolls.
#[derive(Clone, Copy, Debug, PartialEq, Eq, Structural)]
pub struct ScrollControl {
    restore: bool,
}

impl ScrollControl {
    /// Whether scroll positions are kept and restored.
    pub closed spec fn restores(&self) -> bool {
        self.restore
    }

    pub fn new(do_scroll_restoration: bool) -> (control: Self)
        ensures
            control.restores() == do_scroll_restoration,
    {
        ScrollControl { restore: do_scroll_restoration }
    }

    /// Whether the browser has to leave scroll restoration to the provider.
    pub fn is_manual(&self) -> (manual: bool)
        ensures
            manual == self.restores(),
    {
        self.restore
    }

    /// Where the position for a new history entry comes from.
    pub fn scroll_pos(&self) -> (source: ScrollSource)
        ensures
            source == scroll_source(self.restores()),
    {
        if self.restore {
            ScrollSource::Window
        } else {
            ScrollSource::Origin
        }
    }

    /// Whether the page has to be scrolled to its top, now that another route
    /// is shown.
    pub fn handle_nav(&self) -> (to_top: bool)
        ensures
            to_top == self.restores(),
    {
        self.restore
    }

    /// Where to scroll once the router has followed the browser to another
    /// history entry, which keeps the position `saved`.
    pub fn on_popstate<N>(&self, saved: Option<ScrollPosition<N>>) -> (target: Option<
        ScrollPosition<N>,
    >)
        ensures
            target == popstate_target(self.restores(), saved),
    {
        if self.restore {
            saved
        } else {
            None
        }
    }
}

} // verus!
