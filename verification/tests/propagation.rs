use shardpix::PropAction;
use shardpix::PropEvent;
use shardpix::fetch_url;
use shardpix::plan_peer_lookup;
use shardpix::prop_start;
use shardpix::probe_url;

#[test]
fn first_successful_peer_wins() {
    // peers [A, B]: A's probe fails, B confirms and serves
    let (s, a) = prop_start(2);
    assert!(matches!(a, PropAction::Probe { peer: 0 }));

    let (s, a) = s.step(PropEvent::ProbeFailed);
    assert!(matches!(a, PropAction::Probe { peer: 1 }));

    let (s, a) = s.step(PropEvent::ProbeOk { filename: "photo.webp".to_string() });
    // A's fetch endpoint is never named; B's is
    assert!(matches!(a, PropAction::Fetch { peer: 1 }));

    let (_, a) = s.step(PropEvent::FetchOk { payload: vec![1, 2, 3] });
    match a {
        PropAction::Persist { filename, payload } => {
            assert_eq!(filename, "photo.webp");
            assert_eq!(payload, vec![1, 2, 3]);
        }
        other => panic!("expected persisting B's replica, got {:?}", other),
    }
}

#[test]
fn empty_peer_list_gives_up() {
    let (_, a) = prop_start(0);
    assert!(matches!(a, PropAction::GiveUp));
}

#[test]
fn all_peers_failing_gives_up() {
    let (s, a) = prop_start(2);
    assert!(matches!(a, PropAction::Probe { peer: 0 }));
    let (s, a) = s.step(PropEvent::ProbeFailed);
    assert!(matches!(a, PropAction::Probe { peer: 1 }));
    let (_, a) = s.step(PropEvent::ProbeFailed);
    assert!(matches!(a, PropAction::GiveUp));
}

#[test]
fn failed_fetch_disqualifies_the_peer() {
    let (s, _) = prop_start(2);
    let (s, a) = s.step(PropEvent::ProbeOk { filename: "f.webp".to_string() });
    assert!(matches!(a, PropAction::Fetch { peer: 0 }));
    let (s, a) = s.step(PropEvent::FetchFailed);
    assert!(matches!(a, PropAction::Probe { peer: 1 }));
    let (_, a) = s.step(PropEvent::ProbeFailed);
    assert!(matches!(a, PropAction::GiveUp));
}

#[test]
fn peer_urls() {
    assert_eq!(
        probe_url("peer.example:8080", "node1", "photo"),
        "https://peer.example:8080/node1/propagation?name=photo"
    );
    assert_eq!(
        fetch_url("peer.example:8080", "node1", "photo"),
        "https://peer.example:8080/node1/propagate?name=photo"
    );
}

#[test]
fn peer_lookup_answers_probes() {
    let listing = vec!["photo.webp".to_string(), "notes.txt".to_string()];
    // a probe carries the bare asset name: the stored file's stem answers it
    assert_eq!(
        plan_peer_lookup("name=photo", &listing),
        Some("photo.webp".to_string())
    );
    assert_eq!(
        plan_peer_lookup("name=notes", &listing),
        Some("notes.txt".to_string())
    );
    // a probe for the full stored file name answers too
    assert_eq!(
        plan_peer_lookup("name=photo.webp", &listing),
        Some("photo.webp".to_string())
    );
    assert_eq!(plan_peer_lookup("name=missing", &listing), None);
    assert_eq!(plan_peer_lookup("other=photo", &listing), None);
    assert_eq!(plan_peer_lookup("", &listing), None);
}

#[test]
fn peer_lookup_takes_the_first_match() {
    let listing = vec!["a.webp".to_string(), "a.txt".to_string()];
    assert_eq!(plan_peer_lookup("name=a", &listing), Some("a.webp".to_string()));
}
