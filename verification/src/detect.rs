//! The change detector: decides whether a fresh observation differs from the
//! previous one and so warrants a publish.

use vstd::prelude::*;

use crate::snapshot::{Snapshot, SnapshotView};

verus! {

/// Two snapshots are equal exactly when their title, artists and album agree,
/// each by exact value equality, with an absent field equal only to an absent
/// field. The artist comparison is on the whole ordered sequence, so a change
/// of order counts as a change. No other datum a player might expose takes
/// part in the comparison.
pub open spec fn snapshots_equal(a: SnapshotView, b: SnapshotView) -> bool {
    a.title == b.title && a.artists == b.artists && a.album == b.album
}

/// A fresh observation is unchanged exactly when a previous one exists and is
/// equal to it; with no previous observation it always counts as changed, so
/// the first successful poll always publishes.
pub open spec fn spec_is_unchanged(new: SnapshotView, previous: Option<SnapshotView>) -> bool {
    match previous {
        Option::Some(p) => snapshots_equal(new, p),
        Option::None => false,
    }
}

fn option_text_equal(a: &Option<String>, b: &Option<String>) -> (r: bool)
    ensures
        r == (a.deep_view() == b.deep_view()),
{
    match (a, b) {
        (Option::None, Option::None) => true,
        (Option::Some(x), Option::Some(y)) => *x == *y,
        _ => false,
    }
}

fn text_lists_equal(a: &Vec<String>, b: &Vec<String>) -> (r: bool)
    ensures
        r == (a.deep_view() == b.deep_view()),
{
    proof {
        assert(a.deep_view().len() == a@.len());
        assert(b.deep_view().len() == b@.len());
    }
    if a.len() != b.len() {
        return false;
    }
    let mut i: usize = 0;
    while i < a.len()
        invariant
            i <= a.len(),
            a.len() == b.len(),
            forall|j: int| 0 <= j < i ==> a@[j]@ == b@[j]@,
        decreases a.len() - i,
    {
        if !(a[i] == b[i]) {
            proof {
                assert(a.deep_view()[i as int] == a@[i as int]@);
                assert(b.deep_view()[i as int] == b@[i as int]@);
            }
            return false;
        }
        i += 1;
    }
    proof {
        assert forall|j: int| 0 <= j < a.deep_view().len() implies a.deep_view()[j]
            == b.deep_view()[j] by {
            assert(a.deep_view()[j] == a@[j]@);
            assert(b.deep_view()[j] == b@[j]@);
        }
        assert(a.deep_view() =~~= b.deep_view());
    }
    true
}

fn option_text_lists_equal(a: &Option<Vec<String>>, b: &Option<Vec<String>>) -> (r: bool)
    ensures
        r == (a.deep_view() == b.deep_view()),
{
    match (a, b) {
        (Option::None, Option::None) => true,
        (Option::Some(x), Option::Some(y)) => text_lists_equal(x, y),
        _ => false,
    }
}

/// Decides whether `new` repeats the previous observation. `false` means
/// "changed, must publish"; in particular the very first observation, with no
/// previous snapshot, always publishes.
pub fn is_unchanged(new: &Snapshot, previous: Option<&Snapshot>) -> (r: bool)
    ensures
        r == spec_is_unchanged(new@, previous.deep_view()),
{
    match previous {
        Option::None => false,
        Option::Some(p) => option_text_equal(&new.title, &p.title)
            && option_text_lists_equal(&new.artists, &p.artists)
            && option_text_equal(&new.album, &p.album),
    }
}

/// Snapshot equality depends on title, artists and album alone: any two
/// snapshot values that agree on those three fields compare as unchanged,
/// whatever else an observation of a player might have carried.
pub proof fn lemma_compares_listed_fields_only(a: SnapshotView, b: SnapshotView)
    requires
        a.title == b.title,
        a.artists == b.artists,
        a.album == b.album,
    ensures
        spec_is_unchanged(a, Some(b)),
{
}

/// With no previous observation, every snapshot counts as changed: the first
/// successful poll always publishes.
pub proof fn lemma_first_observation_publishes(s: SnapshotView)
    ensures
        !spec_is_unchanged(s, None::<SnapshotView>),
{
}

/// Unchangedness is reflexive: a snapshot never differs from itself.
pub proof fn lemma_unchanged_reflexive(s: SnapshotView)
    ensures
        spec_is_unchanged(s, Some(s)),
{
}

/// The artist comparison is order-sensitive: whenever the artist sequences
/// differ at all — the same names in another order included — the snapshots
/// compare as changed.
pub proof fn lemma_artist_order_matters(a: SnapshotView, b: SnapshotView)
    requires
        a.artists != b.artists,
    ensures
        !spec_is_unchanged(a, Some(b)),
{
}

/// An absent title never equals a present one, the empty string included.
pub proof fn lemma_absent_title_differs_from_present(a: SnapshotView, b: SnapshotView)
    requires
        a.title is None,
        b.title is Some,
    ensures
        !spec_is_unchanged(a, Some(b)),
{
}

} // verus!
