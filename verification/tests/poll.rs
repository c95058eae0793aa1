use mpris2mqtt::poll::{IterationStep, PollLoop, QueryError};
use mpris2mqtt::publish::{initial_fact, Topic};
use mpris2mqtt::snapshot::Snapshot;

fn snap(title: Option<&str>, artists: Option<Vec<&str>>, album: Option<&str>) -> Snapshot {
    Snapshot {
        title: title.map(|s| s.to_string()),
        artists: artists.map(|v| v.into_iter().map(|s| s.to_string()).collect()),
        album: album.map(|s| s.to_string()),
    }
}

#[test]
fn player_absent_at_startup_publishes_placeholder_once() {
    // Before the first poll the bridge publishes the placeholder to
    // music/title alone; a failed query then ends the loop without any
    // further publish and without touching the stored state.
    let f = initial_fact();
    assert_eq!(f.topic, Topic::Title);
    assert_eq!(f.value, "N/A");

    let mut p = PollLoop::new();
    let step = p.on_query(Err(QueryError::NoPlayerFound), Some("myhost".to_string()));
    assert!(matches!(step, IterationStep::Fatal(QueryError::NoPlayerFound)));
    assert!(p.previous.is_none());
}

#[test]
fn query_errors_are_described_distinctly() {
    assert_eq!(
        QueryError::PlatformUnavailable.describe(),
        "Could not connect to D-Bus"
    );
    assert_eq!(QueryError::NoPlayerFound.describe(), "Could not find any player");
    assert_eq!(
        QueryError::MetadataUnavailable.describe(),
        "Could not get metadata for player"
    );
}

#[test]
fn each_query_error_is_fatal_and_keeps_state() {
    let errors = vec![
        QueryError::PlatformUnavailable,
        QueryError::NoPlayerFound,
        QueryError::MetadataUnavailable,
    ];
    for e in errors {
        let mut p = PollLoop::new();
        let step = p.on_query(Err(e), None);
        match step {
            IterationStep::Fatal(got) => assert_eq!(got, e),
            _ => panic!("a failed query must be fatal"),
        }
        assert!(p.previous.is_none());
    }
}

#[test]
fn identical_second_poll_publishes_nothing() {
    let mut p = PollLoop::new();
    let host = Some("myhost".to_string());

    let first = snap(Some("Song A"), Some(vec!["Artist X"]), Some("Album 1"));
    let step = p.on_query(Ok(first), host.clone());
    let facts = match step {
        IterationStep::Publish(facts) => facts,
        _ => panic!("the first observation must publish"),
    };
    assert_eq!(facts.len(), 4);

    let second = snap(Some("Song A"), Some(vec!["Artist X"]), Some("Album 1"));
    let step2 = p.on_query(Ok(second), host);
    assert!(matches!(step2, IterationStep::NoChange));
}

#[test]
fn title_change_republishes_all_four_topics_in_order() {
    let mut p = PollLoop::new();
    let host = Some("myhost".to_string());

    let first = snap(Some("Song A"), Some(vec!["Artist X"]), Some("Album 1"));
    p.on_query(Ok(first), host.clone());

    let second = snap(Some("Song B"), Some(vec!["Artist X"]), Some("Album 1"));
    let step = p.on_query(Ok(second), host);
    let facts = match step {
        IterationStep::Publish(facts) => facts,
        _ => panic!("a title change must publish"),
    };
    assert_eq!(facts.len(), 4);
    assert_eq!(facts[0].topic, Topic::Title);
    assert_eq!(facts[0].value, "Song B");
    assert_eq!(facts[1].topic, Topic::Artist);
    assert_eq!(facts[1].value, "Artist X");
    assert_eq!(facts[2].topic, Topic::Album);
    assert_eq!(facts[2].value, "Album 1");
    assert_eq!(facts[3].topic, Topic::Source);
    assert_eq!(facts[3].value, "myhost");
}

#[test]
fn unresolved_host_skips_source_but_still_publishes() {
    let mut p = PollLoop::new();
    let s = snap(Some("Song A"), Some(vec!["Artist X"]), Some("Album 1"));
    let step = p.on_query(Ok(s), None);
    let facts = match step {
        IterationStep::Publish(facts) => facts,
        _ => panic!("the first observation must publish"),
    };
    assert_eq!(facts.len(), 3);
    assert_eq!(facts[0].value, "Song A");
    assert_eq!(facts[1].value, "Artist X");
    assert_eq!(facts[2].value, "Album 1");
    assert!(facts.iter().all(|f| f.topic != Topic::Source));
    assert!(p.previous.is_some());
}

#[test]
fn state_is_replaced_as_soon_as_a_publish_is_decided() {
    // The stored snapshot is replaced when the publish plan is handed out,
    // before the broker has accepted any send; a send failure ends the
    // process, so the next process starts with no previous snapshot and
    // republishes anyway.
    let mut p = PollLoop::new();
    let s = snap(Some("Song A"), Some(vec!["Artist X"]), Some("Album 1"));
    p.on_query(Ok(s), None);
    let stored = p.previous.as_ref().expect("a publish must store the snapshot");
    assert_eq!(stored.title.as_deref(), Some("Song A"));
    assert_eq!(stored.album.as_deref(), Some("Album 1"));
}

#[test]
fn artist_order_change_triggers_a_republish() {
    let mut p = PollLoop::new();
    let first = snap(Some("Song A"), Some(vec!["A", "B"]), Some("Album 1"));
    p.on_query(Ok(first), None);
    let second = snap(Some("Song A"), Some(vec!["B", "A"]), Some("Album 1"));
    let step = p.on_query(Ok(second), None);
    let facts = match step {
        IterationStep::Publish(facts) => facts,
        _ => panic!("an artist order change must publish"),
    };
    assert_eq!(facts[1].value, "B, A");
}
