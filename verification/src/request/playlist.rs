//! The answer that names an episode's master playlist.

use vstd::prelude::*;

verus! {

/// Where the master playlist of an episode is.
#[derive(Debug, Clone, PartialEq, Eq)]
pub struct PlaylistSrc {
    src: String,
}

impl PlaylistSrc {
    /// A playlist location.
    pub fn new(src: String) -> (r: PlaylistSrc)
        ensures
            r.src_view() == src@,
    {
        PlaylistSrc { src }
    }

    /// The URL of the master playlist.
    pub closed spec fn src_view(&self) -> Seq<char> {
        self.src@
    }

    /// The URL of the master playlist.
    pub fn src(&self) -> (r: &String)
        ensures
            r@ == self.src_view(),
    {
        &self.src
    }
}

} // verus!
