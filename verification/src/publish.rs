//! The publisher's topic mapping: from a snapshot to the ordered list of
//! topic/value pairs that one change event sends to the broker.
//!
//! Every message of the bridge is a retained, at-most-once publish; the shim
//! that owns the broker connection applies that policy to each fact it is
//! handed, in the order given.

use vstd::prelude::*;
use vstd::string::StringExecFns;

use crate::snapshot::{Snapshot, SnapshotView};

verus! {

/// The fixed set of topics the bridge publishes on.
#[derive(Clone, Copy, Debug, PartialEq, Eq, Structural)]
pub enum Topic {
    Title,
    Artist,
    Album,
    Source,
}

/// One retained message: a topic and the text that goes out on it.
#[derive(Debug)]
pub struct Fact {
    pub topic: Topic,
    pub value: String,
}

/// The mathematical value of a [`Fact`].
#[verifier::ext_equal]
pub struct FactView {
    pub topic: Topic,
    pub value: Seq<char>,
}

impl View for Fact {
    type V = FactView;

    open spec fn view(&self) -> FactView {
        FactView { topic: self.topic, value: self.value@ }
    }
}

impl DeepView for Fact {
    type V = FactView;

    open spec fn deep_view(&self) -> FactView {
        self.view()
    }
}

/// The wire name of each topic.
pub open spec fn spec_topic_name(t: Topic) -> Seq<char> {
    match t {
        Topic::Title => "music/title"@,
        Topic::Artist => "music/artist"@,
        Topic::Album => "music/album"@,
        Topic::Source => "music/source"@,
    }
}

/// Renders a topic as the name it bears on the wire.
pub fn topic_name(t: Topic) -> (r: &'static str)
    ensures
        r@ == spec_topic_name(t),
{
    match t {
        Topic::Title => "music/title",
        Topic::Artist => "music/artist",
        Topic::Album => "music/album",
        Topic::Source => "music/source",
    }
}

/// The text published in place of an absent field.
pub open spec fn spec_placeholder() -> Seq<char> {
    "N/A"@
}

/// The placeholder value for an absent field.
pub fn placeholder() -> (r: String)
    ensures
        r@ == spec_placeholder(),
{
    "N/A".to_owned()
}

/// The artist list joined into one line: the names in their reported order,
/// separated by a comma and a space. The first `n` names.
pub open spec fn spec_join_prefix(artists: Seq<Seq<char>>, n: int) -> Seq<char>
    decreases n,
{
    if n <= 0 {
        Seq::empty()
    } else if n == 1 {
        artists[0]
    } else {
        spec_join_prefix(artists, n - 1) + ", "@ + artists[n - 1]
    }
}

/// The whole artist list joined with `", "`, in reported order.
pub open spec fn spec_join_artists(artists: Seq<Seq<char>>) -> Seq<char> {
    spec_join_prefix(artists, artists.len() as int)
}

/// Joins the artist names with `", "`, keeping their reported order.
pub fn join_artists(artists: &Vec<String>) -> (r: String)
    ensures
        r@ == spec_join_artists(artists.deep_view()),
{
    let ghost a: Seq<Seq<char>> = artists.deep_view();
    let mut r = String::new();
    let mut i: usize = 0;
    while i < artists.len()
        invariant
            i <= artists.len(),
            a == artists.deep_view(),
            a.len() == artists@.len(),
            forall|j: int| 0 <= j < a.len() ==> a[j] == artists@[j]@,
            r@ == spec_join_prefix(a, i as int),
        decreases artists.len() - i,
    {
        if i > 0 {
            r.append(", ");
        }
        r.append(artists[i].as_str());
        i += 1;
    }
    r
}

/// The value published on `music/title`: the title, or the placeholder when
/// the player reports none.
pub open spec fn spec_title_value(s: SnapshotView) -> Seq<char> {
    match s.title {
        Option::Some(t) => t,
        Option::None => spec_placeholder(),
    }
}

/// The value published on `music/artist`: the artist list joined with `", "`,
/// or the placeholder when the player reports no list at all.
pub open spec fn spec_artist_value(s: SnapshotView) -> Seq<char> {
    match s.artists {
        Option::Some(a) => spec_join_artists(a),
        Option::None => spec_placeholder(),
    }
}

/// The value published on `music/album`: the album, or the placeholder when
/// the player reports none.
pub open spec fn spec_album_value(s: SnapshotView) -> Seq<char> {
    match s.album {
        Option::Some(a) => a,
        Option::None => spec_placeholder(),
    }
}

/// Everything one change event publishes, in the fixed order title, artist,
/// album, source. The source fact carries the host name and is omitted
/// entirely when resolution of the host name failed; the other three are
/// always present, absent fields falling back to the placeholder.
pub open spec fn spec_publish_plan(s: SnapshotView, host: Option<Seq<char>>) -> Seq<FactView> {
    let base = seq![
        (FactView { topic: Topic::Title, value: spec_title_value(s) }),
        (FactView { topic: Topic::Artist, value: spec_artist_value(s) }),
        (FactView { topic: Topic::Album, value: spec_album_value(s) }),
    ];
    match host {
        Option::Some(h) => base.push(FactView { topic: Topic::Source, value: h }),
        Option::None => base,
    }
}

/// Maps a snapshot to the facts one change event publishes, in order:
/// title, artist, album, then — only when the host name resolved — source.
pub fn publish_plan(snapshot: &Snapshot, host: Option<&String>) -> (r: Vec<Fact>)
    ensures
        r.deep_view() == spec_publish_plan(snapshot@, host.deep_view()),
{
    let mut r: Vec<Fact> = Vec::new();
    let title_value = match &snapshot.title {
        Option::Some(t) => t.clone(),
        Option::None => placeholder(),
    };
    r.push(Fact { topic: Topic::Title, value: title_value });
    let artist_value = match &snapshot.artists {
        Option::Some(a) => join_artists(a),
        Option::None => placeholder(),
    };
    r.push(Fact { topic: Topic::Artist, value: artist_value });
    let album_value = match &snapshot.album {
        Option::Some(a) => a.clone(),
        Option::None => placeholder(),
    };
    r.push(Fact { topic: Topic::Album, value: album_value });
    match host {
        Option::Some(h) => {
            r.push(Fact { topic: Topic::Source, value: h.clone() });
        },
        Option::None => {},
    }
    proof {
        assert(r.deep_view() =~~= spec_publish_plan(snapshot@, host.deep_view()));
    }
    r
}

/// The startup placeholder: before the first poll the bridge publishes the
/// placeholder on `music/title` alone, so a subscriber sees a defined value
/// at once.
pub fn initial_fact() -> (r: Fact)
    ensures
        r@.topic == Topic::Title,
        r@.value == spec_placeholder(),
{
    Fact { topic: Topic::Title, value: placeholder() }
}

} // verus!
