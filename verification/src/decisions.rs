//! What maintenance decides at each of its turns, told by what is known and what was reported.
use vstd::prelude::*;
use crate::ancestor::{AncestorSearch, HashOrNumber, HeadersRequest, BATCH_SIZE};
use crate::chain::ChainInfo;
use crate::dispatch::DispatcherModel;
use crate::maintain::{
    asks_for_search, awaits, steps, sync_target, Action, Event, MaintenanceModel, Outcome,
    StageModel, DRAIN_AMOUNT,
};
use crate::peers::lists_heavier;
use crate::primitives::{PeerId, ReqId, U256};
use crate::runs::Run;
use crate::state::{AbortReason, SyncModel, SyncRound, SyncState};

verus! {

// ---- the target

/// The block to synchronize to is the head of the best chain seen whenever that chain is strictly
/// heavier than ours. There is none only if no chain was seen or the best is no heavier.
pub proof fn law_target_is_head_of_heavier_chain(best_seen: Option<ChainInfo>, td: U256)
    ensures
        sync_target(best_seen, td) is Some <==> best_seen is Some && best_seen->0.head_td@ > td@,
        best_seen is Some && best_seen->0.head_td@ > td@ ==> {
            let best = best_seen->0;
            sync_target(best_seen, td) == Some((best.head_num, best.head_hash))
        },
{
}

// ---- import

/// A round is drained into the import queue exactly if the queue is not full.
pub proof fn law_round_is_drained_unless_queue_is_full<R>(
    sync: SyncModel<R>,
    run: MaintenanceModel,
    full: bool,
    out: Outcome<R>,
)
    requires
        run.stage is CheckQueue,
        steps(sync, run, Event::QueueChecked(full), out),
    ensures
        out.action is DrainRound <==> !full && sync.state is Rounds,
        out.action is DrainRound ==> {
            &&& out.action->DrainRound_0 == sync.state->Rounds_0
            &&& out.action->DrainRound_1 == DRAIN_AMOUNT
            &&& out.stage is Drain
            &&& out.sync.state is Idle
        },
{
}

/// A round that was drained is back in its place. The first of its headers, if there is any, goes to
/// the import queue.
pub proof fn law_first_drained_header_is_queued<R>(
    sync: SyncModel<R>,
    run: MaintenanceModel,
    event: Event<R>,
    out: Outcome<R>,
)
    requires
        event is Drained,
        event->Drained_1@.len() > 0,
        steps(sync, run, event, out),
    ensures
        out.sync.state == SyncState::Rounds(event->Drained_0),
        out.action == Action::<R>::QueueHeader(event->Drained_1@[0].1),
        out.stage is Import,
        out.stage->Import_0 == event->Drained_1@[0].0,
        out.stage->Import_1.len() + 1 == event->Drained_1@.len(),
{
}

/// While headers go to the import queue the state stays as it is. Each of them is followed by the
/// next, and the last by another look at the queue; a bad one by the punishment of its supplier.
pub proof fn law_import_goes_on_until_bad_header<R>(
    sync: SyncModel<R>,
    run: MaintenanceModel,
    event: Event<R>,
    out: Outcome<R>,
)
    requires
        run.stage is Import,
        steps(sync, run, event, out),
    ensures
        event is HeaderQueued || event is HeaderRejected,
        out.sync == sync,
        event is HeaderRejected ==> {
            &&& out.action == Action::<R>::DisablePeer(run.stage->Import_0)
            &&& out.stage is PunishImport
        },
        event is HeaderQueued && run.stage->Import_1.len() == 0 ==> {
            &&& out.action is CheckQueue
            &&& out.stage is CheckQueue
        },
        event is HeaderQueued && run.stage->Import_1.len() > 0 ==> {
            &&& out.action == Action::<R>::QueueHeader(run.stage->Import_1[0].1)
            &&& out.stage is Import
            &&& out.stage->Import_0 == run.stage->Import_1[0].0
            &&& out.stage->Import_1 == run.stage->Import_1.drop_first()
        },
{
}

/// Once the supplier of a bad header is disabled, the import queue is cleared, if any chain was seen
/// that is worth a new search.
pub proof fn law_queue_is_cleared_after_bad_header<R>(
    sync: SyncModel<R>,
    run: MaintenanceModel,
    out: Outcome<R>,
)
    requires
        run.stage is PunishImport,
        steps(sync, run, Event::PeersDisabled, out),
    ensures
        sync.best_seen is Some ==> {
            &&& out.action is FlushQueue
            &&& out.stage is ResetImport
            &&& out.sync == sync
        },
        sync.best_seen is None ==> {
            &&& out.action is Finish
            &&& out.stage is Done
            &&& out.sync.state is Idle
        },
{
}

// ---- state transitions

/// Whether a search that was just begun at our best block is in this state.
pub open spec fn newly_searching<R>(state: SyncState<R>, best: u64) -> bool {
    &&& best == 0 ==> state == SyncState::<R>::AncestorSearch(AncestorSearch::Genesis)
    &&& best > 0 ==> state == SyncState::<R>::AncestorSearch(AncestorSearch::Queued(best))
}

/// Whether the event is the one by which the import comes to its end, leaving this state: the queue
/// is full or there is no round to drain, the round had nothing more, or a bad header was dealt with.
pub open spec fn import_ends<R>(
    sync: SyncModel<R>,
    run: MaintenanceModel,
    event: Event<R>,
    state: SyncState<R>,
) -> bool {
    match event {
        Event::QueueChecked(full) => {
            &&& run.stage is CheckQueue
            &&& full || !(sync.state is Rounds)
            &&& state == sync.state
        },
        Event::Drained(round, headers) => {
            &&& run.stage is Drain
            &&& headers@.len() == 0
            &&& state == SyncState::Rounds(round)
        },
        Event::QueueFlushed(best) => {
            &&& run.stage is ResetImport
            &&& newly_searching(state, best)
        },
        _ => false,
    }
}

/// With no chain seen that is strictly heavier than ours, everything stops.
pub proof fn law_nothing_to_do_without_heavier_chain<R>(
    sync: SyncModel<R>,
    run: MaintenanceModel,
    event: Event<R>,
    state: SyncState<R>,
    out: Outcome<R>,
)
    requires
        import_ends(sync, run, event, state),
        steps(sync, run, event, out),
        sync.best_seen is None || sync.best_seen->0.head_td@
            <= run.chain_info.pending_total_difficulty@,
    ensures
        out.action is Finish,
        out.stage is Done,
        out.sync.state is Idle,
{
}

/// With a strictly heavier chain seen, idle synchronization clears the import queue for a search.
pub proof fn law_heavier_chain_wakes_idle<R>(
    sync: SyncModel<R>,
    run: MaintenanceModel,
    event: Event<R>,
    best: ChainInfo,
    out: Outcome<R>,
)
    requires
        import_ends(sync, run, event, SyncState::Idle),
        steps(sync, run, event, out),
        sync.best_seen == Some(best),
        best.head_td@ > run.chain_info.pending_total_difficulty@,
    ensures
        out.action is FlushQueue,
        out.stage is Reset,
        out.sync.state is Idle,
{
}

/// With a strictly heavier chain seen, a search that is over is followed by a round from the common
/// block, or from the genesis block, to the head of that chain.
pub proof fn law_round_goes_from_common_block_to_best_head<R>(
    sync: SyncModel<R>,
    run: MaintenanceModel,
    event: Event<R>,
    search: AncestorSearch,
    best: ChainInfo,
    out: Outcome<R>,
)
    requires
        import_ends(sync, run, event, SyncState::AncestorSearch(search)),
        steps(sync, run, event, out),
        sync.best_seen == Some(best),
        best.head_td@ > run.chain_info.pending_total_difficulty@,
    ensures
        out.action is BeginRound <==> search is FoundCommon || search is Genesis,
        out.action is BeginRound ==> {
            &&& out.action->BeginRound_1 == (best.head_num, best.head_hash)
            &&& out.stage is BeginRound
            &&& out.sync.state is Idle
        },
        search is FoundCommon ==> out.action->BeginRound_0 == (
            search->FoundCommon_0,
            search->FoundCommon_1,
        ),
        search is Genesis ==> out.action->BeginRound_0 == (0u64, run.chain_info.genesis_hash),
{
}

/// With a strictly heavier chain seen, an aborted round is kept as long as it holds headers. Then it
/// is given up: at its target synchronization rests; without responses a new search is made ready;
/// for a bad scaffold those to blame are disabled first.
pub proof fn law_aborted_round_is_followed_up<R>(
    sync: SyncModel<R>,
    run: MaintenanceModel,
    event: Event<R>,
    round: SyncRound<R>,
    best: ChainInfo,
    out: Outcome<R>,
)
    requires
        round is Abort,
        import_ends(sync, run, event, SyncState::Rounds(round)),
        steps(sync, run, event, out),
        sync.best_seen == Some(best),
        best.head_td@ > run.chain_info.pending_total_difficulty@,
    ensures
        round->Abort_1@.len() > 0 ==> {
            &&& out.action is Finish
            &&& out.stage is Done
            &&& out.sync.state == SyncState::Rounds(round)
        },
        round->Abort_1@.len() == 0 ==> {
            &&& out.sync.state is Idle
            &&& match round->Abort_0 {
                AbortReason::TargetReached => out.action is Finish && out.stage is Done,
                AbortReason::NoResponses => out.action is FlushQueue && out.stage is Reset,
                AbortReason::BadScaffold(peers) => {
                    &&& out.action == Action::<R>::DisablePeers(peers)
                    &&& out.stage is Punish
                },
            }
        },
{
}

/// Once those to blame for a bad scaffold are disabled, the import queue is cleared for a search, if
/// any chain was seen.
pub proof fn law_queue_is_cleared_after_bad_scaffold<R>(
    sync: SyncModel<R>,
    run: MaintenanceModel,
    out: Outcome<R>,
)
    requires
        run.stage is Punish,
        steps(sync, run, Event::PeersDisabled, out),
    ensures
        sync.best_seen is Some ==> {
            &&& out.action is FlushQueue
            &&& out.stage is Reset
            &&& out.sync == sync
        },
        sync.best_seen is None ==> {
            &&& out.action is Finish
            &&& out.stage is Done
            &&& out.sync.state is Idle
        },
{
}

// ---- requests

/// Whether requests are dispatched on this event, in this state: a search or a round was just begun,
/// or one goes on while a strictly heavier chain was seen.
pub open spec fn requests_follow<R>(
    sync: SyncModel<R>,
    run: MaintenanceModel,
    event: Event<R>,
    state: SyncState<R>,
) -> bool {
    ||| run.stage is Reset && event is QueueFlushed && newly_searching(
        state,
        event->QueueFlushed_0,
    )
    ||| run.stage is BeginRound && event is RoundBegun && state == SyncState::Rounds(
        event->RoundBegun_0,
    )
    ||| {
        &&& import_ends(sync, run, event, state)
        &&& sync.best_seen is Some
        &&& sync.best_seen->0.head_td@ > run.chain_info.pending_total_difficulty@
        &&& match state {
            SyncState::Idle => false,
            SyncState::Rounds(round) => round is Running,
            SyncState::AncestorSearch(search) => !(search is FoundCommon) && !(search is Genesis),
        }
    }
}

/// Whether the request is for the blocks from this one downwards, one after the other: as many as a
/// batch holds, or all down to the first block if those are fewer.
pub open spec fn asks_down_from(req: HeadersRequest, start: u64) -> bool {
    &&& req.start == HashOrNumber::Number(start)
    &&& req.skip == 0
    &&& req.reverse
    &&& req.max <= start && req.max <= BATCH_SIZE
    &&& req.max == start || req.max == BATCH_SIZE
}

/// Whether requests may go to this peer: it is known, and its chain is strictly heavier than ours.
pub open spec fn viable<R>(sync: SyncModel<R>, run: MaintenanceModel, peer: PeerId) -> bool {
    &&& sync.peers.contains_key(peer)
    &&& sync.peers[peer].status.head_td@ > run.chain_info.pending_total_difficulty@
}

/// A round is handed out to send its requests, to be given to the peers whose chain is strictly
/// heavier than ours, to all of them, and to nobody twice.
pub proof fn law_round_dispatches_among_heavier_peers<R>(
    sync: SyncModel<R>,
    run: MaintenanceModel,
    event: Event<R>,
    round: SyncRound<R>,
    out: Outcome<R>,
    peer: PeerId,
    i: int,
    j: int,
)
    requires
        requests_follow(sync, run, event, SyncState::Rounds(round)),
        steps(sync, run, event, out),
    ensures
        out.action == Action::DispatchRound(round),
        out.sync.state is Idle,
        out.stage is Requests,
        ({
            let dispatcher = out.stage->Requests_0;
            &&& dispatcher.peer_ids.contains(peer) <==> viable(sync, run, peer)
            &&& !dispatcher.requested_from.contains(peer)
            &&& dispatcher.next == 0
            &&& 0 <= i < j < dispatcher.peer_ids.len() ==> dispatcher.peer_ids[i]
                != dispatcher.peer_ids[j]
        }),
{
}

/// A queued search asks a peer whose chain is strictly heavier than ours, if there is one, for the
/// blocks from its place downwards. If there is none it stays queued.
pub proof fn law_queued_search_asks_heavier_peer<R>(
    sync: SyncModel<R>,
    run: MaintenanceModel,
    event: Event<R>,
    start: u64,
    out: Outcome<R>,
    peer: PeerId,
)
    requires
        requests_follow(
            sync,
            run,
            event,
            SyncState::AncestorSearch(AncestorSearch::Queued(start)),
        ),
        steps(sync, run, event, out),
    ensures
        viable(sync, run, peer) ==> out.action is Request,
        out.action is Request ==> {
            &&& viable(sync, run, out.action->Request_0)
            &&& asks_down_from(out.action->Request_1, start)
            &&& out.sync.state is Idle
            &&& out.stage is SearchAsks
            &&& out.stage->SearchAsks_1 == out.action->Request_0
            &&& out.stage->SearchAsks_2 == start
        },
        !(out.action is Request) ==> {
            &&& out.action is Finish
            &&& out.stage is Done
            &&& out.sync.state == SyncState::<R>::AncestorSearch(AncestorSearch::Queued(start))
        },
{
    let td = run.chain_info.pending_total_difficulty;
    let searching = sync.with_state(SyncState::AncestorSearch(AncestorSearch::Queued(start)));
    let ids = choose|ids: Seq<PeerId>| #[trigger]
        lists_heavier(ids, sync.peers, td) && asks_for_search(
            searching,
            DispatcherModel::fresh(ids),
            start,
            out,
        );
    assert(lists_heavier(ids, sync.peers, td));
    let fresh = DispatcherModel::fresh(ids);
    if out.action is Request {
        let i = choose|i: int| #[trigger] fresh.offers(i) && out.action->Request_0 == ids[i];
        assert(ids.contains(ids[i]));
    } else if viable(sync, run, peer) {
        assert(ids.contains(peer));
        let j = choose|j: int| 0 <= j < ids.len() && ids[j] == peer;
        assert(fresh.requested_from.contains(fresh.peer_ids[j]));
    }
}

/// A search that awaits a response or is prehistoric, or one that just ended at the genesis block,
/// sends nothing and stays.
pub proof fn law_other_searches_stay<R>(
    sync: SyncModel<R>,
    run: MaintenanceModel,
    event: Event<R>,
    search: AncestorSearch,
    out: Outcome<R>,
)
    requires
        !(search is Queued),
        requests_follow(sync, run, event, SyncState::AncestorSearch(search)),
        steps(sync, run, event, out),
    ensures
        out.action is Finish,
        out.stage is Done,
        out.sync.state == SyncState::<R>::AncestorSearch(search),
{
}

/// What a round wants is asked for as it is, or the round is told that nobody takes it.
pub proof fn law_round_request_is_passed_on<R>(
    sync: SyncModel<R>,
    run: MaintenanceModel,
    req: HeadersRequest,
    out: Outcome<R>,
)
    requires
        steps(sync, run, Event::RoundRequest(req), out),
    ensures
        out.action is Request || out.action == Action::<R>::Reply(None),
        out.action is Request ==> out.action->Request_1 == req && out.stage is RoundAsks,
        out.action is Reply ==> out.stage is Requests,
        out.sync == sync,
{
}

/// A round is told the identifier under which a peer took its request. While peers refuse, others are
/// asked for the same request, or the round is told that nobody takes it.
pub proof fn law_round_learns_of_its_request<R>(
    sync: SyncModel<R>,
    run: MaintenanceModel,
    event: Event<R>,
    out: Outcome<R>,
)
    requires
        run.stage is RoundAsks,
        steps(sync, run, event, out),
    ensures
        event is Requested,
        out.sync.state == sync.state,
        event->Requested_0 is Ok ==> {
            &&& out.action == Action::<R>::Reply(Some(event->Requested_0->Ok_0))
            &&& out.stage is Requests
            &&& out.sync.pending.contains(event->Requested_0->Ok_0.0)
        },
        event->Requested_0 is Err ==> {
            &&& out.sync == sync
            &&& out.action is Request || out.action == Action::<R>::Reply(None)
            &&& out.action is Request ==> out.action->Request_1 == run.stage->RoundAsks_2
                && out.stage is RoundAsks
            &&& out.action is Reply ==> out.stage is Requests
        },
{
}

/// A search awaits the response to the request that a peer took. While peers refuse, others are asked
/// for the same blocks, or the search stays queued.
pub proof fn law_search_learns_of_its_request<R>(
    sync: SyncModel<R>,
    run: MaintenanceModel,
    event: Event<R>,
    out: Outcome<R>,
)
    requires
        run.stage is SearchAsks,
        steps(sync, run, event, out),
    ensures
        event is Requested,
        event->Requested_0 is Ok ==> {
            &&& out.action is Finish
            &&& out.stage is Done
            &&& out.sync.state is AncestorSearch
            &&& out.sync.state->AncestorSearch_0 is Awaiting
            &&& out.sync.state->AncestorSearch_0->Awaiting_0 == event->Requested_0->Ok_0
            &&& out.sync.state->AncestorSearch_0->Awaiting_1 == run.stage->SearchAsks_2
            &&& asks_down_from(
                out.sync.state->AncestorSearch_0->Awaiting_2,
                run.stage->SearchAsks_2,
            )
        },
        event->Requested_0 is Err ==> {
            ||| {
                &&& out.action is Request
                &&& asks_down_from(out.action->Request_1, run.stage->SearchAsks_2)
                &&& out.stage is SearchAsks
                &&& out.stage->SearchAsks_2 == run.stage->SearchAsks_2
            }
            ||| {
                &&& out.action is Finish
                &&& out.stage is Done
                &&& out.sync.state == SyncState::<R>::AncestorSearch(
                    AncestorSearch::Queued(run.stage->SearchAsks_2),
                )
            }
        },
{
}

/// A round that sent its requests is back in its place, and maintenance is over.
pub proof fn law_round_returns_after_its_requests<R>(
    sync: SyncModel<R>,
    run: MaintenanceModel,
    round: SyncRound<R>,
    out: Outcome<R>,
)
    requires
        steps(sync, run, Event::RoundDispatched(round), out),
    ensures
        out.action is Finish,
        out.stage is Done,
        out.sync.state == SyncState::Rounds(round),
{
}

// ---- events

/// Whatever maintenance asks for, it waits for the events that tell what came of it, whichever way
/// that goes. When it is finished it waits for nothing.
pub proof fn law_actions_are_awaited<R>(run: Run<R>, k: int, event: Event<R>)
    requires
        run.valid(),
        0 <= k < run.outcomes.len(),
    ensures
        awaits(run.outcomes[k].stage, event) <==> match run.outcomes[k].action {
            Action::CheckQueue => event is QueueChecked,
            Action::DrainRound(_, _) => event is Drained,
            Action::QueueHeader(_) => event is HeaderQueued || event is HeaderRejected,
            Action::FlushQueue => event is QueueFlushed,
            Action::DisablePeer(_) => event is PeersDisabled,
            Action::DisablePeers(_) => event is PeersDisabled,
            Action::BeginRound(_, _) => event is RoundBegun,
            Action::DispatchRound(_) => event is RoundRequest || event is RoundDispatched,
            Action::Reply(_) => event is RoundRequest || event is RoundDispatched,
            Action::Request(_, _) => event is Requested,
            Action::Finish => false,
        },
{
    if k > 0 {
        assert(run.links(k - 1));
    }
}

} // verus!
