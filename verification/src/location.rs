//! The address that a document is shown at.

use crate::text;
use vstd::prelude::*;

verus! {

/// What the browser tells of the document's address. A part that it refuses to
/// tell is `None`.
#[derive(Debug)]
pub struct Location {
    pub pathname: Option<String>,
    pub search: Option<String>,
    pub hash: Option<String>,
}

/// The path, query and fragment of an address as one text. A path that is not
/// told is the root, a query or fragment that is not told is empty.
pub open spec fn address_path(
    pathname: Option<Seq<char>>,
    search: Option<Seq<char>>,
    hash: Option<Seq<char>>,
) -> Seq<char> {
    pathname.unwrap_or(seq!['/']) + search.unwrap_or(seq![]) + hash.unwrap_or(seq![])
}

impl Location {
    /// The path, query and fragment of the address as one text.
    pub open spec fn path_text(&self) -> Seq<char> {
        address_path(
            self.pathname.deep_view(),
            self.search.deep_view(),
            self.hash.deep_view(),
        )
    }

    /// The path, query and fragment of the address as one text.
    pub fn path(&self) -> (path: String)
        ensures
            path@ == self.path_text(),
    {
        proof {
            reveal_strlit("/");
            reveal_strlit("");
            assert("/"@ =~= seq!['/']);
            assert(""@ =~= Seq::<char>::empty());
        }
        let pathname: &str = match &self.pathname {
            Some(pathname) => pathname.as_str(),
            None => "/",
        };
        let search: &str = match &self.search {
            Some(search) => search.as_str(),
            None => "",
        };
        let hash: &str = match &self.hash {
            Some(hash) => hash.as_str(),
            None => "",
        };
        text::join(text::join(pathname, search).as_str(), hash)
    }
}

} // verus!
