//! One immutable observation of a player's track metadata.

use vstd::prelude::*;

verus! {

/// An observation of the active player's current track: title, the ordered
/// list of performer names as the player reports them, and album. Each field
/// is absent when the player does not report it; absence is distinct from an
/// empty string. The originating host is not part of a snapshot: it is
/// resolved at publish time.
#[derive(Debug)]
pub struct Snapshot {
    pub title: Option<String>,
    pub artists: Option<Vec<String>>,
    pub album: Option<String>,
}

/// The mathematical value of a [`Snapshot`]: the same three fields, with
/// every piece of text as a sequence of characters.
#[verifier::ext_equal]
pub struct SnapshotView {
    pub title: Option<Seq<char>>,
    pub artists: Option<Seq<Seq<char>>>,
    pub album: Option<Seq<char>>,
}

impl View for Snapshot {
    type V = SnapshotView;

    open spec fn view(&self) -> SnapshotView {
        SnapshotView {
            title: self.title.deep_view(),
            artists: self.artists.deep_view(),
            album: self.album.deep_view(),
        }
    }
}

impl DeepView for Snapshot {
    type V = SnapshotView;

    open spec fn deep_view(&self) -> SnapshotView {
        self.view()
    }
}

} // verus!
