use vstd::prelude::*;
use crate::asset::file_stem;
use crate::asset::stem_of;
use crate::query::query_get;
use crate::query::query_value_of;
use crate::text::ascii_seq;
use crate::text::is_ascii_str;
use crate::text::str_eq;

verus! {

/// The peer existence-probe URL:
/// `https://{peer}/{node}/propagation?name={name}`.
pub open spec fn probe_url_spec(peer: Seq<char>, node: Seq<char>, name: Seq<char>) -> Seq<char> {
    "https://"@ + peer + "/"@ + node + "/propagation?name="@ + name
}

pub fn probe_url(peer: &str, node: &str, name: &str) -> (r: String)
    ensures
        r@ == probe_url_spec(peer@, node@, name@),
{
    let r = String::from_str("https://")
        .concat(peer)
        .concat("/")
        .concat(node)
        .concat("/propagation?name=")
        .concat(name);
    proof {
        assert(r@ =~= probe_url_spec(peer@, node@, name@));
    }
    r
}

/// The peer fetch URL: `https://{peer}/{node}/propagate?name={name}`.
pub open spec fn fetch_url_spec(peer: Seq<char>, node: Seq<char>, name: Seq<char>) -> Seq<char> {
    "https://"@ + peer + "/"@ + node + "/propagate?name="@ + name
}

pub fn fetch_url(peer: &str, node: &str, name: &str) -> (r: String)
    ensures
        r@ == fetch_url_spec(peer@, node@, name@),
{
    let r = String::from_str("https://")
        .concat(peer)
        .concat("/")
        .concat(node)
        .concat("/propagate?name=")
        .concat(name);
    proof {
        assert(r@ =~= fetch_url_spec(peer@, node@, name@));
    }
    r
}

/// Whether a stored file answers a probe for `name`: a probe carries the
/// bare asset name — the stored file's stem, whatever extension
/// normalization stored it under — or the full file name.
pub open spec fn probe_matches(file: Seq<char>, name: Seq<char>) -> bool {
    file == name || stem_of(file) == name
}

/// The index of the first listed file that answers a probe for `name`, or
/// `-1` when none does.
pub open spec fn first_probe_match(files: Seq<String>, name: Seq<char>) -> int
    decreases files.len(),
{
    if files.len() == 0 {
        -1
    } else if probe_matches(files[0]@, name) {
        0
    } else if first_probe_match(files.skip(1), name) == -1 {
        -1
    } else {
        first_probe_match(files.skip(1), name) + 1
    }
}

proof fn lemma_first_probe_match_at(files: Seq<String>, name: Seq<char>, k: int)
    requires
        0 <= k < files.len(),
        probe_matches(files[k]@, name),
        forall|j: int| 0 <= j < k ==> !probe_matches(files[j]@, name),
    ensures
        first_probe_match(files, name) == k,
    decreases k,
{
    if k > 0 {
        lemma_first_probe_match_at(files.skip(1), name, k - 1);
    }
}

proof fn lemma_first_probe_match_none(files: Seq<String>, name: Seq<char>)
    requires
        forall|j: int| 0 <= j < files.len() ==> !probe_matches(files[j]@, name),
    ensures
        first_probe_match(files, name) == -1,
    decreases files.len(),
{
    if files.len() > 0 {
        lemma_first_probe_match_none(files.skip(1), name);
    }
}

/// Answers a peer's existence probe or fetch request: the `name` query
/// parameter names an asset, and the reply is the first listed file that
/// answers it — the canonical stored file name, which the puller persists
/// under (and the fetch handler opens). A missing parameter, a name no
/// stored file answers, or a query that is not plain ASCII is "not found".
pub fn plan_peer_lookup(query: &str, data_files: &Vec<String>) -> (r: Option<String>)
    ensures
        !ascii_seq(query@) ==> r is None,
        ascii_seq(query@) && query_value_of(query@, "name"@) is None ==> r is None,
        ascii_seq(query@) ==> (query_value_of(query@, "name"@) matches Some(n) ==> {
            let m = first_probe_match(data_files@, n);
            &&& m == -1 ==> r is None
            &&& m >= 0 ==> (r matches Some(f) && f@ == data_files@[m]@)
        }),
{
    if !is_ascii_str(query) {
        return None;
    }
    let name = match query_get(query, "name") {
        None => {
            return None;
        },
        Some(n) => n,
    };
    let mut i: usize = 0;
    while i < data_files.len()
        invariant
            i <= data_files@.len(),
            ascii_seq(query@),
            query_value_of(query@, "name"@) == Some(name@),
            forall|j: int| 0 <= j < i ==> !probe_matches(data_files@[j]@, name@),
        decreases data_files@.len() - i,
    {
        if str_eq(data_files[i].as_str(), name.as_str()) || str_eq(
            file_stem(data_files[i].as_str()),
            name.as_str(),
        ) {
            proof {
                lemma_first_probe_match_at(data_files@, name@, i as int);
            }
            return Some(data_files[i].clone());
        }
        i += 1;
    }
    proof {
        lemma_first_probe_match_none(data_files@, name@);
    }
    None
}

/// The protocol's position while pulling a replica from the ordered peers.
#[derive(Debug, Clone)]
pub enum PropPhase {
    /// Waiting for peer `peer`'s answer to the existence probe.
    Probing { peer: usize },
    /// Peer `peer` confirmed the asset under the canonical name `filename`;
    /// waiting for its bytes.
    Fetching { peer: usize, filename: String },
    /// A replica was obtained and handed over for persisting.
    Done,
    /// The peer list was exhausted without a replica.
    Failed,
}

/// The peer-propagation protocol: on a confirmed local miss, each configured
/// peer is asked in list order whether it holds the asset, and the first one
/// that both confirms and serves the bytes wins.
#[derive(Debug, Clone)]
pub struct Propagation {
    pub n_peers: usize,
    pub phase: PropPhase,
}

/// What the transport reports back: a probe or fetch outcome. Any non-200
/// response, network failure or unreadable body counts as the failure event.
#[derive(Debug, Clone)]
pub enum PropEvent {
    ProbeFailed,
    ProbeOk { filename: String },
    FetchFailed,
    FetchOk { payload: Vec<u8> },
}

/// What the driver must do next.
#[derive(Debug, Clone)]
pub enum PropAction {
    /// Send the authenticated existence query to peer `peer`.
    Probe { peer: usize },
    /// Send the authenticated fetch request to peer `peer`.
    Fetch { peer: usize },
    /// Persist `payload` into the local asset store under `filename`, then
    /// resolve the originally requested rendition again.
    Persist { filename: String, payload: Vec<u8> },
    /// Resolve the request to "not found".
    GiveUp,
    /// The protocol is over; nothing is owed.
    Idle,
}

pub open spec fn prop_start_spec(n_peers: usize) -> (Propagation, PropAction) {
    if n_peers == 0 {
        (Propagation { n_peers, phase: PropPhase::Failed }, PropAction::GiveUp)
    } else {
        (
            Propagation { n_peers, phase: PropPhase::Probing { peer: 0 } },
            PropAction::Probe { peer: 0 },
        )
    }
}

/// One transition of the protocol. Events that cannot occur in the current
/// phase change nothing and ask for nothing.
pub open spec fn prop_step_spec(s: Propagation, e: PropEvent) -> (Propagation, PropAction) {
    match (s.phase, e) {
        (PropPhase::Probing { peer }, PropEvent::ProbeFailed) => if peer + 1 < s.n_peers {
            (
                Propagation { n_peers: s.n_peers, phase: PropPhase::Probing { peer: (peer + 1) as usize } },
                PropAction::Probe { peer: (peer + 1) as usize },
            )
        } else {
            (Propagation { n_peers: s.n_peers, phase: PropPhase::Failed }, PropAction::GiveUp)
        },
        (PropPhase::Probing { peer }, PropEvent::ProbeOk { filename }) => (
            Propagation { n_peers: s.n_peers, phase: PropPhase::Fetching { peer, filename } },
            PropAction::Fetch { peer },
        ),
        (PropPhase::Fetching { peer, filename }, PropEvent::FetchOk { payload }) => (
            Propagation { n_peers: s.n_peers, phase: PropPhase::Done },
            PropAction::Persist { filename, payload },
        ),
        (PropPhase::Fetching { peer, filename }, PropEvent::FetchFailed) => if peer + 1
            < s.n_peers {
            (
                Propagation { n_peers: s.n_peers, phase: PropPhase::Probing { peer: (peer + 1) as usize } },
                PropAction::Probe { peer: (peer + 1) as usize },
            )
        } else {
            (Propagation { n_peers: s.n_peers, phase: PropPhase::Failed }, PropAction::GiveUp)
        },
        _ => (s, PropAction::Idle),
    }
}

/// The actions a run of the protocol takes from state `s` under `events`.
pub open spec fn prop_run_spec(s: Propagation, events: Seq<PropEvent>) -> Seq<PropAction>
    decreases events.len(),
{
    if events.len() == 0 {
        Seq::empty()
    } else {
        seq![prop_step_spec(s, events[0]).1] + prop_run_spec(
            prop_step_spec(s, events[0]).0,
            events.skip(1),
        )
    }
}

/// Starts a pull over `n_peers` configured peers.
pub fn prop_start(n_peers: usize) -> (r: (Propagation, PropAction))
    ensures
        r == prop_start_spec(n_peers),
{
    if n_peers == 0 {
        (Propagation { n_peers, phase: PropPhase::Failed }, PropAction::GiveUp)
    } else {
        (
            Propagation { n_peers, phase: PropPhase::Probing { peer: 0 } },
            PropAction::Probe { peer: 0 },
        )
    }
}

impl Propagation {
    /// Feeds one transport outcome to the protocol and yields the next action.
    pub fn step(self, event: PropEvent) -> (r: (Propagation, PropAction))
        ensures
            r == prop_step_spec(self, event),
    {
        let n_peers = self.n_peers;
        match (self.phase, event) {
            (PropPhase::Probing { peer }, PropEvent::ProbeFailed) => {
                if peer < n_peers && n_peers - peer > 1 {
                    (
                        Propagation { n_peers, phase: PropPhase::Probing { peer: peer + 1 } },
                        PropAction::Probe { peer: peer + 1 },
                    )
                } else {
                    (Propagation { n_peers, phase: PropPhase::Failed }, PropAction::GiveUp)
                }
            },
            (PropPhase::Probing { peer }, PropEvent::ProbeOk { filename }) => (
                Propagation { n_peers, phase: PropPhase::Fetching { peer, filename } },
                PropAction::Fetch { peer },
            ),
            (PropPhase::Fetching { peer: _, filename }, PropEvent::FetchOk { payload }) => (
                Propagation { n_peers, phase: PropPhase::Done },
                PropAction::Persist { filename, payload },
            ),
            (PropPhase::Fetching { peer, filename: _ }, PropEvent::FetchFailed) => {
                if peer < n_peers && n_peers - peer > 1 {
                    (
                        Propagation { n_peers, phase: PropPhase::Probing { peer: peer + 1 } },
                        PropAction::Probe { peer: peer + 1 },
                    )
                } else {
                    (Propagation { n_peers, phase: PropPhase::Failed }, PropAction::GiveUp)
                }
            },
            (phase, _) => (Propagation { n_peers, phase }, PropAction::Idle),
        }
    }
}

/// Law (propagation ordering): with peers `[A, B]`, when A's existence probe
/// fails while B's succeeds and B then serves its bytes, the protocol probes
/// A, probes B, fetches from B and persists B's reply under B's reported
/// name — and A's fetch endpoint is never called.
pub proof fn lemma_propagation_ordering(filename: String, payload: Vec<u8>)
    ensures
        ({
            let start = prop_start_spec(2);
            let events = seq![
                PropEvent::ProbeFailed,
                (PropEvent::ProbeOk { filename }),
                (PropEvent::FetchOk { payload }),
            ];
            let actions = seq![start.1] + prop_run_spec(start.0, events);
            &&& actions == seq![
                (PropAction::Probe { peer: 0 }),
                (PropAction::Probe { peer: 1 }),
                (PropAction::Fetch { peer: 1 }),
                (PropAction::Persist { filename, payload }),
            ]
            &&& forall|i: int|
                0 <= i < actions.len() ==> !((#[trigger] actions[i]) matches PropAction::Fetch {
                    peer,
                } && peer == 0)
        }),
{
    let start = prop_start_spec(2);
    let ev0 = PropEvent::ProbeFailed;
    let ev1 = PropEvent::ProbeOk { filename };
    let ev2 = PropEvent::FetchOk { payload };
    let events = seq![ev0, ev1, ev2];
    let s1 = prop_step_spec(start.0, ev0).0;
    let s2 = prop_step_spec(s1, ev1).0;
    let s3 = prop_step_spec(s2, ev2).0;
    assert(events.skip(1) =~= seq![ev1, ev2]);
    assert(seq![ev1, ev2].skip(1) =~= seq![ev2]);
    assert(seq![ev2].skip(1) =~= Seq::<PropEvent>::empty());
    assert(prop_run_spec(s3, seq![ev2].skip(1)) =~= Seq::<PropAction>::empty());
    assert(prop_run_spec(s2, seq![ev2]) =~= seq![prop_step_spec(s2, ev2).1]);
    assert(prop_run_spec(s1, seq![ev1, ev2]) =~= seq![prop_step_spec(s1, ev1).1]
        + prop_run_spec(s2, seq![ev2]));
    assert(prop_run_spec(start.0, events) =~= seq![prop_step_spec(start.0, ev0).1]
        + prop_run_spec(s1, seq![ev1, ev2]));
    let actions = seq![start.1] + prop_run_spec(start.0, events);
    assert(actions =~= seq![
        (PropAction::Probe { peer: 0 }),
        (PropAction::Probe { peer: 1 }),
        (PropAction::Fetch { peer: 1 }),
        (PropAction::Persist { filename, payload }),
    ]);
    assert forall|i: int| 0 <= i < actions.len() implies !((#[trigger] actions[i]) matches PropAction::Fetch {
        peer,
    } && peer == 0) by {
        if i == 0 {
        } else if i == 1 {
        } else if i == 2 {
        } else {
        }
    }
}

proof fn lemma_exhausted_peers(s: Propagation, peer: usize, events: Seq<PropEvent>)
    requires
        s.phase == (PropPhase::Probing { peer }),
        peer < s.n_peers,
        events.len() == s.n_peers - peer,
        forall|i: int| 0 <= i < events.len() ==> events[i] is ProbeFailed,
    ensures
        prop_run_spec(s, events).len() == events.len(),
        forall|i: int|
            0 <= i < events.len() - 1 ==> (#[trigger] prop_run_spec(s, events)[i])
                matches PropAction::Probe { .. },
        prop_run_spec(s, events)[events.len() - 1] is GiveUp,
        forall|i: int|
            0 <= i < events.len() ==> !((#[trigger] prop_run_spec(s, events)[i])
                matches PropAction::Persist { .. }),
    decreases events.len(),
{
    let stepped = prop_step_spec(s, events[0]);
    let rest = events.skip(1);
    assert(prop_run_spec(s, events) =~= seq![stepped.1] + prop_run_spec(stepped.0, rest));
    if peer + 1 < s.n_peers {
        assert(forall|i: int| 0 <= i < rest.len() ==> rest[i] is ProbeFailed);
        lemma_exhausted_peers(stepped.0, (peer + 1) as usize, rest);
        assert forall|i: int|
            0 <= i < events.len() implies !((#[trigger] prop_run_spec(s, events)[i])
                matches PropAction::Persist { .. }) by {
        }
    } else {
        assert(events.len() == 1);
        assert(rest =~= Seq::<PropEvent>::empty());
        assert(prop_run_spec(stepped.0, rest) =~= Seq::<PropAction>::empty());
        assert(prop_run_spec(s, events) =~= seq![stepped.1]);
    }
}

/// Law (propagation total failure): an empty peer list gives up immediately,
/// and when every configured peer's existence probe fails the protocol ends
/// with giving up — nothing is ever fetched or persisted — so the request
/// resolves to "not found".
pub proof fn lemma_propagation_total_failure(n_peers: usize, events: Seq<PropEvent>)
    requires
        events.len() == n_peers,
        forall|i: int| 0 <= i < events.len() ==> events[i] is ProbeFailed,
    ensures
        n_peers == 0 ==> prop_start_spec(n_peers).1 is GiveUp,
        n_peers > 0 ==> prop_run_spec(prop_start_spec(n_peers).0, events)[n_peers - 1] is GiveUp,
        forall|i: int|
            0 <= i < n_peers ==> !((#[trigger] prop_run_spec(prop_start_spec(n_peers).0, events)[i])
                matches PropAction::Persist { .. }),
{
    if n_peers > 0 {
        lemma_exhausted_peers(prop_start_spec(n_peers).0, 0, events);
    }
}

} // verus!
