use light_sync::ancestor::{AncestorSearch, BadResponse, HeadersRequest, ProbedHeader};
use light_sync::events::{
    Announcement, AnnouncementOutcome, Capabilities, Departure, Handling, PeerStatus, Reception,
    Response, Status,
};
use light_sync::maintain::{Action, Event, Maintenance};
use light_sync::primitives::{H256, ReqId, U256};
use light_sync::state::{BlockChainInfo, Header, QueueInfo, SyncRound, SyncState};
use light_sync::{LightSync, SyncInfo};

type Sync = LightSync<&'static str>;

fn hash(low: u128) -> H256 {
    H256 { high: 0, low }
}

fn td(low: u128) -> U256 {
    U256 { high: 0, low }
}

fn ours() -> BlockChainInfo {
    BlockChainInfo {
        pending_total_difficulty: td(100),
        genesis_hash: hash(1),
        best_block_number: 10,
        first_block_number: None,
    }
}

fn new_sync() -> Sync {
    LightSync::new(&ours()).unwrap()
}

fn quiet() -> QueueInfo {
    QueueInfo { full: false, unverified_queue_size: 0 }
}

fn connect(sync: &mut Sync, peer: usize, weight: u128, num: u64) {
    let status = Status { head_td: td(weight), head_hash: hash(num as u128), head_num: num };
    let kept = sync.on_connect(peer, &status, &Capabilities { serve_headers: true });
    assert_eq!(kept, PeerStatus::Kept);
}

fn announce(sync: &mut Sync, peer: usize, weight: u128, num: u64) -> AnnouncementOutcome {
    let announcement =
        Announcement { head_td: td(weight), head_hash: hash(num as u128), head_num: num };
    sync.on_announcement(peer, &announcement)
}

/// Brings the search to await request 7 to peer 1, and returns the request.
fn await_seven(sync: &mut Sync) -> HeadersRequest {
    connect(sync, 1, 200, 20);
    let (run, _) = Maintenance::begin::<&'static str>(ours());
    let (run, _) = sync.maintain_sync(run, Event::QueueChecked(false));
    let (run, action) = sync.maintain_sync(run, Event::QueueFlushed(10));
    let req = match action {
        Action::Request(1, req) => req,
        other => panic!("unexpected action {:?}", other),
    };
    let (_, action) = sync.maintain_sync(run, Event::Requested(Ok(ReqId(7))));
    assert!(matches!(action, Action::Finish));
    req
}

/// Brings the only peer's round to run.
fn start_round(sync: &mut Sync) {
    connect(sync, 1, 200, 20);
    sync.on_round(SyncRound::Running("round"));
}

#[test]
fn new_sync_is_idle() {
    let sync = new_sync();
    assert_eq!(sync.start_block(), 10);
    assert_eq!(sync.highest_block(), None);
    assert!(matches!(sync.state(), SyncState::Idle));
    assert!(!sync.is_major_importing(&quiet()));
}

#[test]
fn full_queue_counts_as_major_import() {
    let sync = new_sync();
    assert!(!sync.is_major_importing(&QueueInfo { full: false, unverified_queue_size: 3 }));
    assert!(sync.is_major_importing(&QueueInfo { full: false, unverified_queue_size: 4 }));
}

#[test]
fn search_counts_as_major_import() {
    let mut sync = new_sync();
    await_seven(&mut sync);
    assert!(sync.is_major_importing(&quiet()));
}

#[test]
fn peer_without_headers_is_not_kept() {
    let mut sync = new_sync();
    let status = Status { head_td: td(200), head_hash: hash(20), head_num: 20 };
    let kept = sync.on_connect(1, &status, &Capabilities { serve_headers: false });
    assert_eq!(kept, PeerStatus::Unkept);
    assert_eq!(sync.highest_block(), None);
    assert!(matches!(sync.on_disconnect(1, &[]), Departure::Unknown));
}

#[test]
fn best_seen_is_the_heaviest() {
    let mut sync = new_sync();
    connect(&mut sync, 1, 200, 20);
    assert_eq!(sync.highest_block(), Some(20));
    connect(&mut sync, 2, 150, 99);
    assert_eq!(sync.highest_block(), Some(20));
    connect(&mut sync, 3, 200, 21);
    assert_eq!(sync.highest_block(), Some(21));
}

#[test]
fn announcement_raises_best_seen() {
    let mut sync = new_sync();
    connect(&mut sync, 1, 200, 20);
    connect(&mut sync, 2, 150, 15);
    assert_eq!(announce(&mut sync, 2, 300, 30), AnnouncementOutcome::Maintain);
    assert_eq!(sync.highest_block(), Some(30));
    assert_eq!(announce(&mut sync, 1, 250, 25), AnnouncementOutcome::Maintain);
    assert_eq!(sync.highest_block(), Some(30));
}

#[test]
fn announcement_of_equal_weight_is_no_step_back() {
    let mut sync = new_sync();
    connect(&mut sync, 1, 200, 20);
    assert_eq!(announce(&mut sync, 1, 200, 21), AnnouncementOutcome::Maintain);
    assert_eq!(sync.highest_block(), Some(21));
}

#[test]
fn peer_that_moves_backwards_is_disconnected() {
    let mut sync = new_sync();
    connect(&mut sync, 1, 200, 20);
    assert_eq!(announce(&mut sync, 1, 199, 19), AnnouncementOutcome::Disconnect);
    // what it advertised before stays the best seen.
    assert_eq!(sync.highest_block(), Some(20));
    assert!(matches!(sync.on_disconnect(1, &[]), Departure::Unknown));
}

#[test]
fn announcement_of_unknown_peer_is_ignored() {
    let mut sync = new_sync();
    assert_eq!(announce(&mut sync, 1, 200, 20), AnnouncementOutcome::Unknown);
    assert_eq!(sync.highest_block(), None);
}

#[test]
fn next_best_takes_the_place_of_the_best() {
    let mut sync = new_sync();
    connect(&mut sync, 1, 200, 20);
    connect(&mut sync, 2, 300, 30);
    connect(&mut sync, 3, 250, 25);
    assert!(matches!(sync.on_disconnect(2, &[]), Departure::Maintain));
    assert_eq!(sync.highest_block(), Some(25));
    assert!(matches!(sync.on_disconnect(1, &[]), Departure::Maintain));
    assert_eq!(sync.highest_block(), Some(25));
}

#[test]
fn last_departure_reverts_to_idle() {
    let mut sync = new_sync();
    await_seven(&mut sync);
    assert!(matches!(sync.on_disconnect(1, &[]), Departure::Maintain));
    assert_eq!(sync.highest_block(), None);
    assert!(matches!(sync.state(), SyncState::Idle));
}

#[test]
fn departure_abandons_the_search_request() {
    let mut sync = new_sync();
    await_seven(&mut sync);
    connect(&mut sync, 2, 300, 30);
    assert!(matches!(sync.on_disconnect(1, &[ReqId(7)]), Departure::Maintain));
    assert!(matches!(
        sync.state(),
        SyncState::AncestorSearch(AncestorSearch::Queued(10))
    ));
    // the abandoned request is not waited for any more.
    assert!(matches!(sync.on_responses(2, ReqId(7), &[]), Reception::Ignored));
}

#[test]
fn departure_of_another_peer_keeps_the_search_request() {
    let mut sync = new_sync();
    await_seven(&mut sync);
    connect(&mut sync, 2, 150, 15);
    assert!(matches!(sync.on_disconnect(2, &[ReqId(8)]), Departure::Maintain));
    assert!(matches!(
        sync.state(),
        SyncState::AncestorSearch(AncestorSearch::Awaiting(ReqId(7), 10, _))
    ));
}

#[test]
fn departure_hands_the_round_out() {
    let mut sync = new_sync();
    start_round(&mut sync);
    connect(&mut sync, 2, 150, 15);
    let round = match sync.on_disconnect(2, &[ReqId(8)]) {
        Departure::AbandonRequests(round) => round,
        other => panic!("unexpected outcome {:?}", other),
    };
    assert!(matches!(round, SyncRound::Running("round")));
    sync.on_round(round);
    assert!(matches!(sync.state(), SyncState::Rounds(SyncRound::Running("round"))));
}

#[test]
fn awaited_response_is_to_be_verified() {
    let mut sync = new_sync();
    let asked = await_seven(&mut sync);
    let responses = [Response::Headers(vec![Header { rlp: vec![1, 2, 3] }])];
    match sync.on_responses(1, ReqId(7), &responses) {
        Reception::Taken { ctx, wrong_type, handling: Handling::Verify(req) } => {
            assert_eq!(req, asked);
            assert!(!wrong_type);
            assert_eq!(ctx.responder(), 1);
            assert_eq!(*ctx.req_id(), ReqId(7));
            assert_eq!(ctx.data().len(), 1);
            assert_eq!(ctx.data()[0].rlp, vec![1, 2, 3]);
        }
        other => panic!("unexpected reception {:?}", other),
    }
    let probes = vec![
        ProbedHeader { number: 10, hash: hash(10), known: false },
        ProbedHeader { number: 9, hash: hash(9), known: true },
    ];
    assert!(!sync.on_verified(&ReqId(7), Ok(probes), None));
    match sync.state() {
        SyncState::AncestorSearch(search) => {
            assert_eq!(*search, AncestorSearch::FoundCommon(9, hash(9)));
        }
        other => panic!("unexpected state {:?}", other),
    }
}

#[test]
fn long_response_that_settles_the_search_is_good() {
    let mut sync = new_sync();
    await_seven(&mut sync);
    sync.on_responses(1, ReqId(7), &[]);
    let probes = (0..12)
        .map(|i| ProbedHeader { number: 11 - i, hash: hash(11 - i as u128), known: i == 11 })
        .collect();
    assert!(!sync.on_verified(&ReqId(7), Ok(probes), Some(0)));
    match sync.state() {
        SyncState::AncestorSearch(search) => {
            assert_eq!(*search, AncestorSearch::FoundCommon(0, hash(0)));
        }
        other => panic!("unexpected state {:?}", other),
    }
}

#[test]
fn bad_response_punishes_the_responder() {
    let mut sync = new_sync();
    await_seven(&mut sync);
    assert!(matches!(sync.on_responses(1, ReqId(7), &[]), Reception::Taken { .. }));
    assert!(sync.on_verified(&ReqId(7), Err(BadResponse), None));
    assert!(matches!(
        sync.state(),
        SyncState::AncestorSearch(AncestorSearch::Queued(10))
    ));
}

#[test]
fn verification_without_a_search_changes_nothing() {
    let mut sync = new_sync();
    start_round(&mut sync);
    assert!(!sync.on_verified(&ReqId(7), Err(BadResponse), None));
    assert!(matches!(sync.state(), SyncState::Rounds(SyncRound::Running("round"))));
}

#[test]
fn response_is_taken_once() {
    let mut sync = new_sync();
    await_seven(&mut sync);
    assert!(matches!(sync.on_responses(1, ReqId(7), &[]), Reception::Taken { .. }));
    assert!(matches!(sync.on_responses(1, ReqId(7), &[]), Reception::Ignored));
}

#[test]
fn response_nobody_waits_for_is_ignored() {
    let mut sync = new_sync();
    await_seven(&mut sync);
    assert!(matches!(sync.on_responses(1, ReqId(8), &[]), Reception::Ignored));
}

#[test]
fn response_of_unknown_peer_is_ignored_and_still_expected() {
    let mut sync = new_sync();
    await_seven(&mut sync);
    assert!(matches!(sync.on_responses(2, ReqId(7), &[]), Reception::Ignored));
    assert!(matches!(sync.on_responses(1, ReqId(7), &[]), Reception::Taken { .. }));
}

#[test]
fn response_of_wrong_type_brings_no_headers() {
    let mut sync = new_sync();
    await_seven(&mut sync);
    let responses = [Response::Other, Response::Headers(vec![Header { rlp: vec![1] }])];
    match sync.on_responses(1, ReqId(7), &responses) {
        Reception::Taken { ctx, wrong_type, handling } => {
            assert!(wrong_type);
            assert!(ctx.data().is_empty());
            assert!(matches!(handling, Handling::Verify(_)));
        }
        other => panic!("unexpected reception {:?}", other),
    }
}

#[test]
fn empty_response_is_not_of_wrong_type() {
    let mut sync = new_sync();
    await_seven(&mut sync);
    match sync.on_responses(1, ReqId(7), &[]) {
        Reception::Taken { ctx, wrong_type, .. } => {
            assert!(!wrong_type);
            assert!(ctx.data().is_empty());
        }
        other => panic!("unexpected reception {:?}", other),
    }
}

#[test]
fn response_after_the_search_ended_has_no_use() {
    let mut sync = new_sync();
    await_seven(&mut sync);
    connect(&mut sync, 2, 150, 15);
    // the peer leaves without the request being reported as unfulfilled, then all others do.
    assert!(matches!(sync.on_disconnect(1, &[]), Departure::Maintain));
    let (run, _) = sync.tick(BlockChainInfo { pending_total_difficulty: td(150), ..ours() });
    let (_, action) = sync.maintain_sync(run, Event::QueueChecked(false));
    assert!(matches!(action, Action::Finish));
    assert!(matches!(
        sync.on_responses(2, ReqId(7), &[]),
        Reception::Taken { handling: Handling::Nothing, .. }
    ));
}

#[test]
fn round_processes_its_responses() {
    let mut sync = new_sync();
    await_seven(&mut sync);
    sync.on_round(SyncRound::Running("round"));
    let round = match sync.on_responses(1, ReqId(7), &[]) {
        Reception::Taken { handling: Handling::Process(round), .. } => round,
        other => panic!("unexpected reception {:?}", other),
    };
    assert!(matches!(round, SyncRound::Running("round")));
    sync.on_round(SyncRound::Running("processed"));
    assert!(matches!(
        sync.state(),
        SyncState::Rounds(SyncRound::Running("processed"))
    ));
}

#[test]
fn passing_peer_leaves_no_trace() {
    let mut sync = new_sync();
    await_seven(&mut sync);
    connect(&mut sync, 2, 300, 30);
    assert_eq!(sync.highest_block(), Some(30));
    assert!(matches!(sync.on_disconnect(2, &[]), Departure::Maintain));
    assert_eq!(sync.highest_block(), Some(20));
    assert!(matches!(sync.on_responses(2, ReqId(7), &[]), Reception::Ignored));
    assert!(matches!(sync.on_responses(1, ReqId(7), &[]), Reception::Taken { .. }));
}

#[test]
fn opened_generator_gives_an_idle_manager() {
    let sync: Sync = LightSync::with_rng(&ours(), rand::OsRng::new()).unwrap();
    assert_eq!(sync.start_block(), 10);
    assert_eq!(sync.highest_block(), None);
    assert!(matches!(sync.state(), SyncState::Idle));
    assert!(!sync.is_major_importing(&quiet()));
}

#[test]
fn missing_randomness_is_reported() {
    let error = std::io::Error::new(std::io::ErrorKind::NotFound, "no randomness");
    let res: Result<Sync, std::io::Error> = LightSync::with_rng(&ours(), Err(error));
    match res {
        Err(e) => {
            assert_eq!(e.kind(), std::io::ErrorKind::NotFound);
            assert_eq!(e.to_string(), "no randomness");
        },
        Ok(_) => panic!("a manager without a generator"),
    }
}
