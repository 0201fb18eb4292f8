use light_sync::ancestor::{AncestorSearch, HashOrNumber, HeadersRequest, ProbedHeader};
use light_sync::dispatch::Dispatcher;
use light_sync::events::{Capabilities, Reception, Status};
use light_sync::maintain::{Action, Event, Maintenance, RequestError};
use light_sync::primitives::{H256, ReqId, U256};
use light_sync::state::{AbortReason, BlockChainInfo, Header, SyncRound, SyncState};
use light_sync::{LightSync, SyncInfo};
use std::collections::VecDeque;

type Round = &'static str;
type Sync = LightSync<Round>;

fn hash(low: u128) -> H256 {
    H256 { high: 0, low }
}

fn ours() -> BlockChainInfo {
    BlockChainInfo {
        pending_total_difficulty: U256 { high: 0, low: 100 },
        genesis_hash: hash(1),
        best_block_number: 10,
        first_block_number: None,
    }
}

fn connect(sync: &mut Sync, peer: usize, weight: u128, num: u64) {
    let status = Status {
        head_td: U256 { high: 0, low: weight },
        head_hash: hash(num as u128),
        head_num: num,
    };
    sync.on_connect(peer, &status, &Capabilities { serve_headers: true });
}

/// A manager with one peer, number 1, at block 20 of a chain heavier than ours.
fn sync_with_peer() -> Sync {
    let mut sync = LightSync::new(&ours()).unwrap();
    connect(&mut sync, 1, 200, 20);
    sync
}

/// Headers that hold one byte each, with their suppliers.
fn headers(supplied: &[(usize, u8)]) -> VecDeque<(usize, Header)> {
    supplied.iter().map(|(peer, byte)| (*peer, Header { rlp: vec![*byte] })).collect()
}

/// Begins maintenance and reports whether the queue is full.
fn check(sync: &mut Sync, full: bool) -> (Maintenance, Action<Round>) {
    let (run, action) = sync.tick(ours());
    assert!(matches!(action, Action::CheckQueue));
    sync.maintain_sync(run, Event::QueueChecked(full))
}

/// Performs the steps by which the search asks peer 1, and returns its request.
fn ask_for_search(sync: &mut Sync, best: u64) -> (Maintenance, HeadersRequest) {
    let (run, action) = check(sync, false);
    assert!(matches!(action, Action::FlushQueue));
    let (run, action) = sync.maintain_sync(run, Event::QueueFlushed(best));
    match action {
        Action::Request(1, req) => (run, req),
        other => panic!("unexpected action {:?}", other),
    }
}

fn aborted(reason: AbortReason, left: &[(usize, u8)]) -> SyncRound<Round> {
    SyncRound::Abort(reason, headers(left))
}

/// Runs maintenance up to the point where an aborted round is looked at.
fn drain_nothing(sync: &mut Sync, round: SyncRound<Round>) -> (Maintenance, Action<Round>) {
    sync.on_round(round);
    let (run, action) = check(sync, false);
    match action {
        Action::DrainRound(round, 128) => {
            sync.maintain_sync(run, Event::Drained(round, VecDeque::new()))
        }
        other => panic!("unexpected action {:?}", other),
    }
}

#[test]
fn without_peers_nothing_happens() {
    let mut sync: Sync = LightSync::new(&ours()).unwrap();
    let (_, action) = check(&mut sync, false);
    assert!(matches!(action, Action::Finish));
    assert!(matches!(sync.state(), SyncState::Idle));
}

#[test]
fn chain_as_heavy_as_ours_is_no_target() {
    let mut sync: Sync = LightSync::new(&ours()).unwrap();
    connect(&mut sync, 1, 100, 20);
    sync.on_round(SyncRound::Running("round"));
    let (_, action) = check(&mut sync, true);
    assert!(matches!(action, Action::Finish));
    assert!(matches!(sync.state(), SyncState::Idle));
}

#[test]
fn idle_begins_a_search_after_clearing_the_queue() {
    let mut sync = sync_with_peer();
    let (_, req) = ask_for_search(&mut sync, 10);
    assert_eq!(
        req,
        HeadersRequest { start: HashOrNumber::Number(10), max: 10, skip: 0, reverse: true }
    );
}

#[test]
fn search_starts_at_the_best_block_after_clearing() {
    let mut sync = sync_with_peer();
    let (_, req) = ask_for_search(&mut sync, 500);
    assert_eq!(
        req,
        HeadersRequest { start: HashOrNumber::Number(500), max: 64, skip: 0, reverse: true }
    );
}

#[test]
fn taken_request_is_awaited_and_expected() {
    let mut sync = sync_with_peer();
    let (run, _) = ask_for_search(&mut sync, 10);
    let (_, action) = sync.maintain_sync(run, Event::Requested(Ok(ReqId(7))));
    assert!(matches!(action, Action::Finish));
    assert!(matches!(
        sync.state(),
        SyncState::AncestorSearch(AncestorSearch::Awaiting(ReqId(7), 10, _))
    ));
    assert!(matches!(sync.on_responses(1, ReqId(7), &[]), Reception::Taken { .. }));
}

#[test]
fn refused_request_leaves_the_search_queued() {
    let mut sync = sync_with_peer();
    let (run, _) = ask_for_search(&mut sync, 10);
    let (_, action) =
        sync.maintain_sync(run, Event::Requested(Err(RequestError::NoCredits)));
    assert!(matches!(action, Action::Finish));
    assert!(matches!(
        sync.state(),
        SyncState::AncestorSearch(AncestorSearch::Queued(10))
    ));
}

#[test]
fn refusal_moves_on_to_the_next_peer() {
    let mut sync = sync_with_peer();
    connect(&mut sync, 2, 300, 30);
    connect(&mut sync, 3, 100, 40);
    let (run, _) = check(&mut sync, false);
    let (run, action) = sync.maintain_sync(run, Event::QueueFlushed(10));
    let first = match action {
        Action::Request(peer, _) => peer,
        other => panic!("unexpected action {:?}", other),
    };
    let (run, action) = sync.maintain_sync(run, Event::Requested(Err(RequestError::Failed)));
    let second = match action {
        Action::Request(peer, _) => peer,
        other => panic!("unexpected action {:?}", other),
    };
    // peer 3 is no heavier than we are.
    assert_eq!(first + second, 3);
    let (_, action) = sync.maintain_sync(run, Event::Requested(Err(RequestError::NoCredits)));
    assert!(matches!(action, Action::Finish));
}

#[test]
fn peers_are_asked_in_random_order() {
    let mut sync: Sync = LightSync::new(&ours()).unwrap();
    for peer in 0..10 {
        connect(&mut sync, peer, 200, 20);
    }
    let (run, _) = check(&mut sync, false);
    let (mut run, mut action) = sync.maintain_sync(run, Event::QueueFlushed(10));
    let mut orders: Vec<Vec<usize>> = vec![];
    for _ in 0..40 {
        let mut order = vec![];
        while let Action::Request(peer, _) = action {
            order.push(peer);
            let next = sync.maintain_sync(run, Event::Requested(Err(RequestError::NoCredits)));
            run = next.0;
            action = next.1;
        }
        let mut sorted = order.clone();
        sorted.sort();
        assert_eq!(sorted, (0..10).collect::<Vec<usize>>());
        orders.push(order);
        let next = check(&mut sync, false);
        run = next.0;
        action = next.1;
    }
    assert!(orders.iter().any(|order| *order != orders[0]));
}

#[test]
fn dispatcher_asks_in_turn_and_skips_takers() {
    let mut dispatcher = Dispatcher::new(vec![5, 6, 7]);
    assert_eq!(dispatcher.next_peer(), Some(5));
    dispatcher.requested(6);
    assert_eq!(dispatcher.next_peer(), Some(7));
    assert_eq!(dispatcher.next_peer(), None);
    assert_eq!(dispatcher.next_peer(), Some(5));
}

#[test]
fn awaited_search_sends_no_second_request() {
    let mut sync = sync_with_peer();
    let (run, _) = ask_for_search(&mut sync, 10);
    sync.maintain_sync(run, Event::Requested(Ok(ReqId(7))));
    let (_, action) = check(&mut sync, false);
    assert!(matches!(action, Action::Finish));
    assert!(matches!(
        sync.state(),
        SyncState::AncestorSearch(AncestorSearch::Awaiting(ReqId(7), 10, _))
    ));
}

#[test]
fn found_common_block_begins_a_round() {
    let mut sync = sync_with_peer();
    let (run, _) = ask_for_search(&mut sync, 10);
    sync.maintain_sync(run, Event::Requested(Ok(ReqId(7))));
    sync.on_responses(1, ReqId(7), &[]);
    let probes = vec![ProbedHeader { number: 10, hash: hash(110), known: true }];
    sync.on_verified(&ReqId(7), Ok(probes), None);

    let (run, action) = check(&mut sync, false);
    match action {
        Action::BeginRound(common, target) => {
            assert_eq!(common, (10, hash(110)));
            assert_eq!(target, (20, hash(20)));
        }
        other => panic!("unexpected action {:?}", other),
    }
    let (run, action) =
        sync.maintain_sync(run, Event::RoundBegun(SyncRound::Running("begun")));
    assert!(matches!(action, Action::DispatchRound(SyncRound::Running("begun"))));
    let (_, action) =
        sync.maintain_sync(run, Event::RoundDispatched(SyncRound::Running("sent")));
    assert!(matches!(action, Action::Finish));
    assert!(matches!(sync.state(), SyncState::Rounds(SyncRound::Running("sent"))));
    assert_eq!(sync.highest_block(), Some(20));
}

#[test]
fn search_at_genesis_begins_a_round_next_time() {
    let mut sync = sync_with_peer();
    let (run, action) = check(&mut sync, false);
    assert!(matches!(action, Action::FlushQueue));
    let (_, action) = sync.maintain_sync(run, Event::QueueFlushed(0));
    assert!(matches!(action, Action::Finish));
    assert!(matches!(
        sync.state(),
        SyncState::AncestorSearch(AncestorSearch::Genesis)
    ));
    let (_, action) = check(&mut sync, true);
    match action {
        Action::BeginRound(common, target) => {
            assert_eq!(common, (0, hash(1)));
            assert_eq!(target, (20, hash(20)));
        }
        other => panic!("unexpected action {:?}", other),
    }
}

#[test]
fn prehistoric_search_stays() {
    let mut sync = sync_with_peer();
    let (run, _) = ask_for_search(&mut sync, 10);
    sync.maintain_sync(run, Event::Requested(Ok(ReqId(7))));
    let probes = vec![ProbedHeader { number: 9, hash: hash(9), known: false }];
    sync.on_verified(&ReqId(7), Ok(probes), Some(10));
    let (_, action) = check(&mut sync, false);
    assert!(matches!(action, Action::Finish));
    assert!(matches!(
        sync.state(),
        SyncState::AncestorSearch(AncestorSearch::Prehistoric)
    ));
}

#[test]
fn drained_headers_are_queued_in_order() {
    let mut sync = sync_with_peer();
    sync.on_round(SyncRound::Running("round"));
    let (run, action) = check(&mut sync, false);
    assert!(matches!(action, Action::DrainRound(SyncRound::Running("round"), 128)));
    let (mut run, mut action) = sync.maintain_sync(
        run,
        Event::Drained(SyncRound::Running("drained"), headers(&[(1, 1), (4, 2), (1, 3)])),
    );
    let mut queued = vec![];
    while let Action::QueueHeader(header) = action {
        queued.push(header.rlp[0]);
        let next = sync.maintain_sync(run, Event::HeaderQueued);
        run = next.0;
        action = next.1;
    }
    assert_eq!(queued, vec![1, 2, 3]);
    assert!(matches!(action, Action::CheckQueue));
    let (_, action) = sync.maintain_sync(run, Event::QueueChecked(true));
    assert!(matches!(action, Action::DispatchRound(SyncRound::Running("drained"))));
}

#[test]
fn full_queue_takes_no_headers() {
    let mut sync = sync_with_peer();
    sync.on_round(SyncRound::Running("round"));
    let (_, action) = check(&mut sync, true);
    assert!(matches!(action, Action::DispatchRound(SyncRound::Running("round"))));
}

/// Runs maintenance up to the point where the first of the headers is at the import queue.
fn import(sync: &mut Sync, supplied: &[(usize, u8)]) -> Maintenance {
    sync.on_round(SyncRound::Running("round"));
    let (run, _) = check(sync, false);
    let (run, action) = sync
        .maintain_sync(run, Event::Drained(SyncRound::Running("drained"), headers(supplied)));
    assert!(matches!(action, Action::QueueHeader(_)));
    run
}

#[test]
fn bad_header_punishes_its_supplier_and_resets_to_search() {
    let mut sync = sync_with_peer();
    let run = import(&mut sync, &[(6, 1), (7, 2)]);
    let (run, action) = sync.maintain_sync(run, Event::HeaderRejected);
    assert!(matches!(action, Action::DisablePeer(6)));
    let (run, action) = sync.maintain_sync(run, Event::PeersDisabled);
    assert!(matches!(action, Action::FlushQueue));
    let (_, action) = sync.maintain_sync(run, Event::QueueFlushed(8));
    match action {
        Action::Request(1, req) => assert_eq!(req.start, HashOrNumber::Number(8)),
        other => panic!("unexpected action {:?}", other),
    }
}

#[test]
fn supplier_of_a_later_bad_header_is_punished() {
    let mut sync = sync_with_peer();
    let run = import(&mut sync, &[(6, 1), (7, 2), (8, 3)]);
    let (run, action) = sync.maintain_sync(run, Event::HeaderQueued);
    assert!(matches!(action, Action::QueueHeader(_)));
    let (run, action) = sync.maintain_sync(run, Event::HeaderRejected);
    assert!(matches!(action, Action::DisablePeer(7)));
    // the last header is not queued any more.
    let (run, action) = sync.maintain_sync(run, Event::PeersDisabled);
    assert!(matches!(action, Action::FlushQueue));
    let (_, action) = sync.maintain_sync(run, Event::QueueFlushed(8));
    assert!(matches!(action, Action::Request(1, _)));
}

#[test]
fn bad_header_at_genesis_begins_a_round() {
    let mut sync = sync_with_peer();
    let run = import(&mut sync, &[(1, 1)]);
    let (run, action) = sync.maintain_sync(run, Event::HeaderRejected);
    assert!(matches!(action, Action::DisablePeer(1)));
    let (run, _) = sync.maintain_sync(run, Event::PeersDisabled);
    let (_, action) = sync.maintain_sync(run, Event::QueueFlushed(0));
    match action {
        Action::BeginRound(common, _) => assert_eq!(common, (0, hash(1))),
        other => panic!("unexpected action {:?}", other),
    }
}

#[test]
fn bad_header_without_peers_goes_idle() {
    let mut sync: Sync = LightSync::new(&ours()).unwrap();
    let run = import(&mut sync, &[(1, 1)]);
    let (run, action) = sync.maintain_sync(run, Event::HeaderRejected);
    assert!(matches!(action, Action::DisablePeer(1)));
    let (_, action) = sync.maintain_sync(run, Event::PeersDisabled);
    assert!(matches!(action, Action::Finish));
    assert!(matches!(sync.state(), SyncState::Idle));
}

#[test]
fn bad_scaffold_disables_peers_and_searches_again() {
    let mut sync = sync_with_peer();
    let (run, action) =
        drain_nothing(&mut sync, aborted(AbortReason::BadScaffold(vec![4, 5]), &[]));
    match action {
        Action::DisablePeers(peers) => assert_eq!(peers, vec![4, 5]),
        other => panic!("unexpected action {:?}", other),
    }
    let (run, action) = sync.maintain_sync(run, Event::PeersDisabled);
    assert!(matches!(action, Action::FlushQueue));
    let (_, action) = sync.maintain_sync(run, Event::QueueFlushed(10));
    assert!(matches!(action, Action::Request(1, _)));
}

#[test]
fn round_without_responses_is_followed_by_a_search() {
    let mut sync = sync_with_peer();
    let (_, action) = drain_nothing(&mut sync, aborted(AbortReason::NoResponses, &[]));
    assert!(matches!(action, Action::FlushQueue));
}

#[test]
fn reached_target_goes_idle() {
    let mut sync = sync_with_peer();
    let (_, action) = drain_nothing(&mut sync, aborted(AbortReason::TargetReached, &[]));
    assert!(matches!(action, Action::Finish));
    assert!(matches!(sync.state(), SyncState::Idle));
}

#[test]
fn aborted_round_is_kept_until_its_headers_are_imported() {
    let mut sync = sync_with_peer();
    let (_, action) = drain_nothing(&mut sync, aborted(AbortReason::TargetReached, &[(1, 9)]));
    assert!(matches!(action, Action::Finish));
    match sync.state() {
        SyncState::Rounds(SyncRound::Abort(AbortReason::TargetReached, remaining)) => {
            assert_eq!(remaining.len(), 1);
        }
        other => panic!("unexpected state {:?}", other),
    }
}

#[test]
fn round_gets_one_request_per_peer() {
    let mut sync = sync_with_peer();
    connect(&mut sync, 2, 200, 20);
    sync.on_round(SyncRound::Running("round"));
    let (run, action) = check(&mut sync, true);
    assert!(matches!(action, Action::DispatchRound(_)));
    let req =
        HeadersRequest { start: HashOrNumber::Hash(hash(5)), max: 10, skip: 3, reverse: false };

    let mut run = run;
    let mut asked = vec![];
    for id in [30, 31] {
        let (next, action) = sync.maintain_sync(run, Event::RoundRequest(req));
        match action {
            Action::Request(peer, sent) => {
                assert_eq!(sent, req);
                asked.push(peer);
            }
            other => panic!("unexpected action {:?}", other),
        }
        let (next, action) = sync.maintain_sync(next, Event::Requested(Ok(ReqId(id))));
        assert!(matches!(action, Action::Reply(Some(ReqId(sent))) if sent == id));
        run = next;
    }
    asked.sort();
    assert_eq!(asked, vec![1, 2]);

    // both peers have a request now.
    let (run, action) = sync.maintain_sync(run, Event::RoundRequest(req));
    assert!(matches!(action, Action::Reply(None)));
    let (_, action) =
        sync.maintain_sync(run, Event::RoundDispatched(SyncRound::Running("sent")));
    assert!(matches!(action, Action::Finish));
    assert!(matches!(sync.on_responses(1, ReqId(30), &[]), Reception::Taken { .. }));
    sync.on_round(SyncRound::Running("sent"));
    assert!(matches!(sync.on_responses(2, ReqId(31), &[]), Reception::Taken { .. }));
}

#[test]
fn peer_that_refused_is_asked_for_the_next_request() {
    let mut sync = sync_with_peer();
    sync.on_round(SyncRound::Running("round"));
    let (run, _) = check(&mut sync, true);
    let req =
        HeadersRequest { start: HashOrNumber::Number(5), max: 10, skip: 3, reverse: false };
    let (run, action) = sync.maintain_sync(run, Event::RoundRequest(req));
    assert!(matches!(action, Action::Request(1, _)));
    let (run, action) = sync.maintain_sync(run, Event::Requested(Err(RequestError::Failed)));
    assert!(matches!(action, Action::Reply(None)));
    let (_, action) = sync.maintain_sync(run, Event::RoundRequest(req));
    assert!(matches!(action, Action::Request(1, _)));
}

#[test]
fn maintenance_knows_what_it_waits_for() {
    let mut sync = sync_with_peer();
    let (run, _) = sync.tick(ours());
    assert!(run.expects(&Event::<Round>::QueueChecked(false)));
    assert!(!run.expects(&Event::<Round>::PeersDisabled));
    let (run, _) = sync.maintain_sync(run, Event::QueueChecked(false));
    assert!(run.expects(&Event::<Round>::QueueFlushed(3)));
    assert!(!run.expects(&Event::<Round>::QueueChecked(false)));

    let run = import(&mut sync, &[(1, 1)]);
    assert!(run.expects(&Event::<Round>::HeaderQueued));
    assert!(run.expects(&Event::<Round>::HeaderRejected));
    let (run, _) = sync.maintain_sync(run, Event::HeaderRejected);
    assert!(run.expects(&Event::<Round>::PeersDisabled));
    assert!(!run.expects(&Event::<Round>::HeaderRejected));
}
