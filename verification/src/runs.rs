//! What holds of whole runs of sync maintenance.
use std::collections::VecDeque;
use vstd::prelude::*;
use crate::ancestor::{ancestor_request, AncestorSearch, HashOrNumber, HeadersRequest};
use crate::events::accepts;
use crate::dispatch::DispatcherModel;
use crate::maintain::{
    asks_for_round, asks_for_search, dispatches, stage_wf, steps, Action, Event, MaintenanceModel, Outcome,
    StageModel,
};
use crate::peers::{lemma_reordered_listing, lists_heavier};
use crate::primitives::{PeerId, ReqId};
use crate::state::{
    AbortReason, BlockChainInfo, BlockDescriptor, Header, SyncModel, SyncRound, SyncState,
};

verus! {

/// A run of maintenance: the outcomes one after the other, the first of them from its beginning, and
/// the events between them.
pub ghost struct Run<R> {
    pub chain_info: BlockChainInfo,
    pub outcomes: Seq<Outcome<R>>,
    pub events: Seq<Event<R>>,
}

impl<R> Run<R> {
    /// How far maintenance got after `i` events.
    pub open spec fn at(self, i: int) -> MaintenanceModel {
        MaintenanceModel { chain_info: self.chain_info, stage: self.outcomes[i].stage }
    }

    /// Whether event `i` leads from outcome `i` to the next.
    pub open spec fn links(self, i: int) -> bool {
        steps(self.outcomes[i].sync, self.at(i), self.events[i], self.outcomes[i + 1])
    }

    /// Whether the run begins as maintenance does and goes on step by step.
    pub open spec fn valid(self) -> bool {
        &&& self.outcomes.len() == self.events.len() + 1
        &&& self.outcomes[0].stage == StageModel::CheckQueue
        &&& self.outcomes[0].action == Action::<R>::CheckQueue
        &&& forall|i: int| 0 <= i < self.events.len() ==> #[trigger] self.links(i)
    }

    /// The identifiers under which requests were sent in the first `k` events.
    pub open spec fn sent(self, k: int) -> Set<usize> {
        Set::new(
            |id: usize|
                exists|i: int|
                    0 <= i < k && #[trigger] self.events[i] == Event::<R>::Requested(Ok(ReqId(id))),
        )
    }

    /// Whether the header that is handed out after `k` events is one of those drained by event `j`,
    /// the others that were drained before it having been handed out in between.
    pub open spec fn hands_out(self, j: int, k: int) -> bool {
        let headers = self.events[j]->Drained_1@;
        let n = k - j - 1;
        &&& 0 <= j < k
        &&& self.events[j] is Drained
        &&& n < headers.len()
        &&& self.outcomes[k].stage == StageModel::Import(headers[n].0, headers.skip(n + 1))
        &&& self.outcomes[k].action == Action::<R>::QueueHeader(headers[n].1)
    }

    /// The block that the run synchronizes to, if there is one.
    pub open spec fn target(self) -> Option<BlockDescriptor> {
        match self.outcomes[0].sync.best_seen {
            Some(best) if best.head_td@ > self.chain_info.pending_total_difficulty@ => Some(
                (best.head_num, best.head_hash),
            ),
            _ => None,
        }
    }

    /// Whether this peer took the request that it was asked for after `m` events.
    pub open spec fn takes(self, m: int, peer: PeerId) -> bool {
        &&& self.outcomes[m].action is Request
        &&& self.outcomes[m].action->Request_0 == peer
        &&& self.events[m] is Requested
        &&& self.events[m]->Requested_0 is Ok
    }

    /// Whether this peer refused this request, which it was asked for after `m` events.
    pub open spec fn refuses(self, m: int, peer: PeerId, req: HeadersRequest) -> bool {
        &&& self.outcomes[m].action == Action::<R>::Request(peer, req)
        &&& self.events[m] is Requested
        &&& self.events[m]->Requested_0 is Err
    }

    /// Whether this peer is known and its chain is heavier than ours.
    pub open spec fn viable(self, peer: PeerId) -> bool {
        &&& self.outcomes[0].sync.peers.contains_key(peer)
        &&& self.outcomes[0].sync.peers[peer].status.head_td@
            > self.chain_info.pending_total_difficulty@
    }
}

// ---- single steps

/// A step leaves the peers and the best chain seen alone, and waits for one more response only if a
/// request was just sent.
pub proof fn law_step_changes_only_state_and_pending<R>(
    sync: SyncModel<R>,
    run: MaintenanceModel,
    event: Event<R>,
    out: Outcome<R>,
)
    requires
        steps(sync, run, event, out),
    ensures
        out.sync.start_block == sync.start_block,
        out.sync.best_seen == sync.best_seen,
        out.sync.peers == sync.peers,
        event matches Event::Requested(Ok(id)) ==> out.sync.pending == sync.pending.insert(id.0),
        !(event matches Event::Requested(Ok(_))) ==> out.sync.pending == sync.pending,
{
}

/// A step keeps what is known in order.
pub proof fn law_step_keeps_well_formed<R>(
    sync: SyncModel<R>,
    run: MaintenanceModel,
    event: Event<R>,
    out: Outcome<R>,
)
    requires
        sync.wf(),
        stage_wf(run.stage),
        steps(sync, run, event, out),
    ensures
        out.sync.wf(),
        stage_wf(out.stage),
{
}

/// While there is a block to synchronize to, maintenance comes to rest only after a round that
/// reached its target.
pub proof fn law_rests_only_at_target<R>(
    sync: SyncModel<R>,
    run: MaintenanceModel,
    event: Event<R>,
    out: Outcome<R>,
)
    requires
        sync.best_seen is Some,
        sync.best_seen->0.head_td@ > run.chain_info.pending_total_difficulty@,
        steps(sync, run, event, out),
        out.stage is Done,
        out.sync.state is Idle,
    ensures
        ({
            ||| run.stage is CheckQueue && sync.state matches SyncState::Rounds(
                SyncRound::Abort(AbortReason::TargetReached, _),
            )
            ||| event matches Event::Drained(SyncRound::Abort(AbortReason::TargetReached, _), _)
        }),
{
}

/// After a bad header its supplier is disabled and the round is given up. Once the queue is cleared,
/// a search from our best block is under way, unless that is the genesis block: then a round begins
/// from there.
pub proof fn law_bad_header_resets<R>(
    sync: SyncModel<R>,
    run: MaintenanceModel,
    punished: Outcome<R>,
    flush: Outcome<R>,
    best: u64,
    out: Outcome<R>,
)
    requires
        run.stage is Import,
        steps(sync, run, Event::HeaderRejected, punished),
        sync.best_seen is Some,
        sync.best_seen->0.head_td@ > run.chain_info.pending_total_difficulty@,
        punished.action is DisablePeer ==> steps(
            punished.sync,
            (MaintenanceModel { chain_info: run.chain_info, stage: punished.stage }),
            Event::PeersDisabled,
            flush,
        ),
        flush.action is FlushQueue ==> steps(
            flush.sync,
            (MaintenanceModel { chain_info: run.chain_info, stage: flush.stage }),
            Event::QueueFlushed(best),
            out,
        ),
    ensures
        punished.action == Action::<R>::DisablePeer(run.stage->Import_0),
        flush.action is FlushQueue,
        best == 0 ==> {
            &&& out.action is BeginRound
            &&& out.action->BeginRound_0 == (0u64, run.chain_info.genesis_hash)
            &&& out.action->BeginRound_1 == (
                sync.best_seen->0.head_num,
                sync.best_seen->0.head_hash,
            )
        },
        best > 0 ==> {
            ||| out.sync.state == SyncState::<R>::AncestorSearch(AncestorSearch::Queued(best))
            ||| out.stage matches StageModel::SearchAsks(_, _, start) && start == best
        },
{
}

/// With a block to synchronize to, a round that was aborted for a bad scaffold has all peers disabled
/// that are to blame. Then the queue is cleared for a new search.
pub proof fn law_bad_scaffold_is_punished<R>(
    sync: SyncModel<R>,
    run: MaintenanceModel,
    event: Event<R>,
    bad_peers: Vec<PeerId>,
    remaining: VecDeque<(PeerId, Header)>,
    punished: Outcome<R>,
    out: Outcome<R>,
)
    requires
        sync.best_seen is Some,
        sync.best_seen->0.head_td@ > run.chain_info.pending_total_difficulty@,
        remaining@.len() == 0,
        ({
            let round = SyncRound::<R>::Abort(AbortReason::BadScaffold(bad_peers), remaining);
            ||| run.stage is CheckQueue && event == Event::<R>::QueueChecked(true) && sync.state
                == SyncState::Rounds(round)
            ||| run.stage is Drain && event is Drained && event->Drained_0 == round
                && event->Drained_1@.len() == 0
        }),
        steps(sync, run, event, punished),
        punished.action is DisablePeers ==> steps(
            punished.sync,
            (MaintenanceModel { chain_info: run.chain_info, stage: punished.stage }),
            Event::PeersDisabled,
            out,
        ),
    ensures
        punished.action == Action::<R>::DisablePeers(bad_peers),
        out.action is FlushQueue,
        out.stage is Reset,
{
}

/// With a block to synchronize to, idle synchronization turns to a search from our best block, once
/// the import queue is cleared.
pub proof fn law_idle_begins_search<R>(
    sync: SyncModel<R>,
    run: MaintenanceModel,
    full: bool,
    flush: Outcome<R>,
    best: u64,
    out: Outcome<R>,
)
    requires
        run.stage is CheckQueue,
        sync.state is Idle,
        sync.best_seen is Some,
        sync.best_seen->0.head_td@ > run.chain_info.pending_total_difficulty@,
        steps(sync, run, Event::QueueChecked(full), flush),
        flush.action is FlushQueue ==> steps(
            flush.sync,
            (MaintenanceModel { chain_info: run.chain_info, stage: flush.stage }),
            Event::QueueFlushed(best),
            out,
        ),
    ensures
        flush.action is FlushQueue,
        ({
            ||| best == 0 && out.sync.state == SyncState::<R>::AncestorSearch(
                AncestorSearch::Genesis,
            )
            ||| best > 0 && out.sync.state == SyncState::<R>::AncestorSearch(
                AncestorSearch::Queued(best),
            )
            ||| out.stage matches StageModel::SearchAsks(_, _, start) && start == best && best > 0
        }),
{
}

/// With a block to synchronize to, a search that found a common block turns to a round from there to
/// that block; a search that got down to the genesis block turns to a round from the genesis block.
pub proof fn law_found_common_begins_round<R>(
    sync: SyncModel<R>,
    run: MaintenanceModel,
    full: bool,
    out: Outcome<R>,
)
    requires
        run.stage is CheckQueue,
        sync.best_seen is Some,
        sync.best_seen->0.head_td@ > run.chain_info.pending_total_difficulty@,
        steps(sync, run, Event::QueueChecked(full), out),
    ensures
        ({
            let target = (sync.best_seen->0.head_num, sync.best_seen->0.head_hash);
            match sync.state {
                SyncState::AncestorSearch(AncestorSearch::FoundCommon(num, hash)) => out.action
                    == Action::<R>::BeginRound((num, hash), target),
                SyncState::AncestorSearch(AncestorSearch::Genesis) => out.action
                    == Action::<R>::BeginRound((0, run.chain_info.genesis_hash), target),
                _ => true,
            }
        }),
{
}

/// With a block to synchronize to, a running round is kept or handed out to be worked on, unless a
/// header turns out bad.
pub proof fn law_running_round_is_kept<R>(
    sync: SyncModel<R>,
    run: MaintenanceModel,
    event: Event<R>,
    out: Outcome<R>,
    round: SyncRound<R>,
)
    requires
        sync.state == SyncState::Rounds(round),
        round is Running,
        sync.best_seen is Some,
        sync.best_seen->0.head_td@ > run.chain_info.pending_total_difficulty@,
        run.stage is CheckQueue || run.stage is Import,
        !(event is HeaderRejected),
        steps(sync, run, event, out),
    ensures
        ({
            ||| out.sync.state == sync.state
            ||| out.action matches Action::DrainRound(handed, _) && handed == round
            ||| out.action == Action::DispatchRound(round)
        }),
{
}

/// A response to a request that was sent is one that synchronization waits for.
pub proof fn law_sent_request_is_expected<R>(
    sync: SyncModel<R>,
    run: MaintenanceModel,
    id: ReqId,
    out: Outcome<R>,
    peer: PeerId,
)
    requires
        steps(sync, run, Event::Requested(Ok(id)), out),
        sync.peers.contains_key(peer),
    ensures
        accepts(out.sync, peer, id),
{
}

// ---- runs

/// Throughout a run the start block, the peers and the best chain seen stay the same, and the
/// responses waited for are those from before and those to the requests that were sent.
pub proof fn law_run_keeps_peers<R>(run: Run<R>, k: int)
    requires
        run.valid(),
        0 <= k < run.outcomes.len(),
    ensures
        run.outcomes[k].sync.start_block == run.outcomes[0].sync.start_block,
        run.outcomes[k].sync.best_seen == run.outcomes[0].sync.best_seen,
        run.outcomes[k].sync.peers == run.outcomes[0].sync.peers,
        run.outcomes[k].sync.pending == run.outcomes[0].sync.pending.union(run.sent(k)),
    decreases k,
{
    if k > 0 {
        let i = k - 1;
        law_run_keeps_peers(run, i);
        assert(run.links(i));
        law_step_changes_only_state_and_pending(
            run.outcomes[i].sync,
            run.at(i),
            run.events[i],
            run.outcomes[k],
        );
        if let Event::Requested(Ok(id)) = run.events[i] {
            assert(run.sent(k) =~= run.sent(i).insert(id.0)) by {
                assert forall|other: usize| run.sent(i).insert(id.0).contains(other) implies run.sent(
                    k,
                ).contains(other) by {
                    if other == id.0 {
                        assert(run.events[i] == Event::<R>::Requested(Ok(ReqId(other))));
                    }
                }
            }
        } else {
            assert(run.sent(k) =~= run.sent(i));
        }
    }
    assert(run.outcomes[k].sync.pending =~= run.outcomes[0].sync.pending.union(run.sent(k)));
}

/// Throughout a run what is known stays in order.
pub proof fn law_run_keeps_well_formed<R>(run: Run<R>, k: int)
    requires
        run.valid(),
        run.outcomes[0].sync.wf(),
        0 <= k < run.outcomes.len(),
    ensures
        run.outcomes[k].sync.wf(),
        stage_wf(run.outcomes[k].stage),
    decreases k,
{
    if k > 0 {
        law_run_keeps_well_formed(run, k - 1);
        assert(run.links(k - 1));
        law_step_keeps_well_formed(
            run.outcomes[k - 1].sync,
            run.at(k - 1),
            run.events[k - 1],
            run.outcomes[k],
        );
    }
}

/// Without a block to synchronize to, a run sends no request, begins no round and disables no peers
/// for an aborted one. It waits for the same responses as before, and where it ends synchronization
/// is idle.
pub proof fn law_run_without_target_goes_idle<R>(run: Run<R>, k: int)
    requires
        run.valid(),
        run.target() is None,
        0 <= k < run.outcomes.len(),
    ensures
        !(run.outcomes[k].action is Request),
        !(run.outcomes[k].action is DispatchRound),
        !(run.outcomes[k].action is BeginRound),
        !(run.outcomes[k].action is DisablePeers),
        run.outcomes[k].sync.pending == run.outcomes[0].sync.pending,
        run.outcomes[k].stage is Done ==> run.outcomes[k].sync.state is Idle,
{
    lemma_without_target(run, k);
}

proof fn lemma_without_target<R>(run: Run<R>, k: int)
    requires
        run.valid(),
        run.target() is None,
        0 <= k < run.outcomes.len(),
    ensures
        !(run.outcomes[k].action is Request),
        !(run.outcomes[k].action is DispatchRound),
        !(run.outcomes[k].action is BeginRound),
        !(run.outcomes[k].action is DisablePeers),
        run.outcomes[k].sync.pending == run.outcomes[0].sync.pending,
        match run.outcomes[k].stage {
            StageModel::CheckQueue => true,
            StageModel::Drain => true,
            StageModel::Import(_, _) => true,
            StageModel::PunishImport => true,
            StageModel::ResetImport => true,
            StageModel::Done => run.outcomes[k].sync.state is Idle,
            _ => false,
        },
    decreases k,
{
    if k > 0 {
        lemma_without_target(run, k - 1);
        law_run_keeps_peers(run, k - 1);
        assert(run.links(k - 1));
    }
}

/// A run searches for a common ancestor only if it did so at its beginning or the import queue was
/// cleared before.
pub proof fn law_search_follows_flush<R>(run: Run<R>, k: int)
    requires
        run.valid(),
        0 <= k < run.outcomes.len(),
        run.outcomes[k].sync.state is AncestorSearch || run.outcomes[k].stage is SearchAsks,
    ensures
        run.outcomes[0].sync.state is AncestorSearch || exists|i: int|
            0 <= i < k && #[trigger] run.events[i] is QueueFlushed,
    decreases k,
{
    if k > 0 {
        let i = k - 1;
        assert(run.links(i));
        if run.events[i] is QueueFlushed {
        } else {
            assert(run.outcomes[i].sync.state is AncestorSearch || run.outcomes[i].stage is SearchAsks);
            law_search_follows_flush(run, i);
        }
    }
}

/// The peers that a dispatcher at this stage chooses from.
pub open spec fn dispatcher_of(stage: StageModel) -> Option<DispatcherModel> {
    match stage {
        StageModel::Requests(dispatcher) => Some(dispatcher),
        StageModel::RoundAsks(dispatcher, _, _) => Some(dispatcher),
        StageModel::SearchAsks(dispatcher, _, _) => Some(dispatcher),
        _ => None,
    }
}

/// What a stage has to do with the action that it comes with.
pub open spec fn asks_as_stage<R>(out: Outcome<R>) -> bool {
    match out.action {
        Action::Request(peer, req) => {
            ||| out.stage matches StageModel::RoundAsks(d, p, r) && p == peer && r == req
                && !d.requested_from.contains(p) && d.peer_ids.contains(p)
            ||| out.stage matches StageModel::SearchAsks(d, p, start) && p == peer
                && req == ancestor_request(start) && !d.requested_from.contains(p) && d.peer_ids.contains(p)
        },
        _ => !(out.stage is RoundAsks) && !(out.stage is SearchAsks),
    }
}

proof fn lemma_asks_as_stage<R>(run: Run<R>, k: int)
    requires
        run.valid(),
        0 <= k < run.outcomes.len(),
    ensures
        asks_as_stage(run.outcomes[k]),
{
    if k > 0 {
        assert(run.links(k - 1));
        assert forall|d: DispatcherModel, i: int| #[trigger] d.offers(i) implies d.moved_to(
            i + 1,
        ).peer_ids.contains(d.peer_ids[i]) by {
            assert(d.peer_ids[i] == d.moved_to(i + 1).peer_ids[i]);
        }
    }
}

proof fn lemma_dispatcher_lists_heavier<R>(run: Run<R>, k: int)
    requires
        run.valid(),
        0 <= k < run.outcomes.len(),
    ensures
        dispatcher_of(run.outcomes[k].stage) matches Some(d) ==> lists_heavier(
            d.peer_ids,
            run.outcomes[0].sync.peers,
            run.chain_info.pending_total_difficulty,
        ),
    decreases k,
{
    if k > 0 {
        let i = k - 1;
        lemma_dispatcher_lists_heavier(run, i);
        law_run_keeps_peers(run, i);
        assert(run.links(i));
        let td = run.chain_info.pending_total_difficulty;
        let peers = run.outcomes[0].sync.peers;
        if let StageModel::Requests(d) = run.outcomes[i].stage {
            if let Event::RoundRequest(req) = run.events[i] {
                let shuffled = choose|shuffled: DispatcherModel| #[trigger]
                    d.reordered(shuffled) && asks_for_round(
                        run.outcomes[i].sync,
                        shuffled,
                        req,
                        run.outcomes[k],
                    );
                lemma_reordered_listing(d.peer_ids, shuffled.peer_ids, peers, td);
            }
        }
    }
}

/// Only connected peers whose chain is heavier than ours are asked for headers.
pub proof fn law_only_heavier_peers_are_asked<R>(run: Run<R>, k: int)
    requires
        run.valid(),
        0 <= k < run.outcomes.len(),
    ensures
        run.outcomes[k].action matches Action::Request(peer, _) ==> {
            &&& run.outcomes[0].sync.peers.contains_key(peer)
            &&& run.outcomes[0].sync.peers[peer].status.head_td@
                > run.chain_info.pending_total_difficulty@
        },
{
    lemma_asks_as_stage(run, k);
    lemma_dispatcher_lists_heavier(run, k);
}

/// After a peer took a request at step `i` of a run, the dispatcher remembers it.
proof fn lemma_requested_is_remembered<R>(run: Run<R>, i: int, k: int, peer: PeerId)
    requires
        run.valid(),
        0 <= i < k < run.outcomes.len(),
        run.outcomes[i].action matches Action::Request(p, _) && p == peer,
        run.events[i] matches Event::Requested(Ok(_)),
    ensures
        match run.outcomes[k].stage {
            StageModel::Requests(d) => d.requested_from.contains(peer),
            StageModel::RoundAsks(d, _, _) => d.requested_from.contains(peer),
            StageModel::Done => true,
            _ => false,
        },
    decreases k,
{
    assert(run.links(k - 1));
    if k == i + 1 {
        lemma_asks_as_stage(run, i);
    } else {
        lemma_requested_is_remembered(run, i, k - 1, peer);
    }
}

/// No peer is asked again in the same run once it took a request.
pub proof fn law_one_request_per_peer<R>(run: Run<R>, i: int, k: int, peer: PeerId)
    requires
        run.valid(),
        0 <= i < k < run.outcomes.len(),
        run.outcomes[i].action matches Action::Request(p, _) && p == peer,
        run.events[i] matches Event::Requested(Ok(_)),
    ensures
        run.outcomes[k].action matches Action::Request(p, _) ==> p != peer,
{
    lemma_requested_is_remembered(run, i, k, peer);
    lemma_asks_as_stage(run, k);
}

// ---- whom requests go to

/// Whoever a dispatcher holds to have taken a request did so earlier in the run.
proof fn lemma_requested_from_took<R>(run: Run<R>, k: int, peer: PeerId)
    requires
        run.valid(),
        0 <= k < run.outcomes.len(),
        dispatcher_of(run.outcomes[k].stage) is Some,
        dispatcher_of(run.outcomes[k].stage)->0.requested_from.contains(peer),
    ensures
        exists|m: int| 0 <= m < k && #[trigger] run.takes(m, peer),
    decreases k,
{
    let i = k - 1;
    assert(run.links(i));
    lemma_asks_as_stage(run, i);
    if run.takes(i, peer) {
    } else {
        lemma_requested_from_took(run, i, peer);
        let m = choose|m: int| 0 <= m < i && #[trigger] run.takes(m, peer);
        assert(0 <= m < k && run.takes(m, peer));
    }
}

/// Where the search for a taker of a request stands that the round came with at event `i`: all peers
/// up to the one that is asked took a request before or refused this one.
spec fn seeking<R>(run: Run<R>, i: int, k: int) -> bool {
    let d = run.outcomes[k].stage->RoundAsks_0;
    let req = run.outcomes[k].stage->RoundAsks_2;
    &&& 0 <= i < k
    &&& run.outcomes[k].stage is RoundAsks
    &&& run.events[i] == Event::<R>::RoundRequest(req)
    &&& forall|m: int| i < m < k ==> #[trigger] run.events[m] is Requested
    &&& 0 < d.next <= d.peer_ids.len()
    &&& d.peer_ids[d.next - 1] == run.outcomes[k].stage->RoundAsks_1
    &&& forall|j: int|
        0 <= j < d.next - 1 ==> d.requested_from.contains(#[trigger] d.peer_ids[j])
            || refused_since(run, i, k, d.peer_ids[j], req)
}

spec fn refused_since<R>(run: Run<R>, i: int, k: int, peer: PeerId, req: HeadersRequest) -> bool {
    exists|m: int| i < m < k && #[trigger] run.refuses(m, peer, req)
}

proof fn lemma_seeking<R>(run: Run<R>, k: int) -> (i: int)
    requires
        run.valid(),
        0 <= k < run.outcomes.len(),
        run.outcomes[k].stage is RoundAsks,
    ensures
        seeking(run, i, k),
    decreases k,
{
    let h = k - 1;
    assert(run.links(h));
    let d = run.outcomes[k].stage->RoundAsks_0;
    let req = run.outcomes[k].stage->RoundAsks_2;
    if run.events[h] is RoundRequest {
        let before = run.outcomes[h].stage->Requests_0;
        let shuffled = choose|shuffled: DispatcherModel| #[trigger]
            before.reordered(shuffled) && asks_for_round(
                run.outcomes[h].sync,
                shuffled,
                req,
                run.outcomes[k],
            );
        assert(seeking(run, h, k));
        h
    } else {
        let i = lemma_seeking(run, h);
        let before = run.outcomes[h].stage->RoundAsks_0;
        lemma_asks_as_stage(run, h);
        assert forall|j: int| 0 <= j < d.next - 1 implies d.requested_from.contains(
            #[trigger] d.peer_ids[j],
        ) || refused_since(run, i, k, d.peer_ids[j], req) by {
            assert(d.peer_ids[j] == before.peer_ids[j]);
            if j < before.next - 1 {
                if refused_since(run, i, h, d.peer_ids[j], req) {
                    let m = choose|m: int| i < m < h && #[trigger]
                        run.refuses(m, d.peer_ids[j], req);
                    assert(i < m < k && run.refuses(m, d.peer_ids[j], req));
                }
            } else if j == before.next - 1 {
                assert(run.refuses(h, d.peer_ids[j], req));
            }
        }
        assert(seeking(run, i, k));
        i
    }
}

/// A round is told that nobody takes its request only if each known peer with a heavier chain took a
/// request earlier in the run, or was asked for this very request and refused.
pub proof fn law_round_request_fails_only_if_all_refused<R>(run: Run<R>, k: int, peer: PeerId)
    requires
        run.valid(),
        0 <= k < run.outcomes.len(),
        run.outcomes[k].action == Action::<R>::Reply(None),
        run.viable(peer),
    ensures
        exists|i: int|
            0 <= i < k && #[trigger] run.events[i] is RoundRequest && (forall|m: int|
                i < m < k ==> #[trigger] run.events[m] is Requested) && ((exists|m: int|
                0 <= m < k && #[trigger] run.takes(m, peer)) || (exists|m: int|
                i < m < k && #[trigger] run.refuses(m, peer, run.events[i]->RoundRequest_0))),
{
    let i = lemma_failed_request(run, k, peer);
    assert(run.events[i] is RoundRequest);
}

proof fn lemma_failed_request<R>(run: Run<R>, k: int, peer: PeerId) -> (i: int)
    requires
        run.valid(),
        0 <= k < run.outcomes.len(),
        run.outcomes[k].action == Action::<R>::Reply(None),
        run.viable(peer),
    ensures
        0 <= i < k,
        run.events[i] is RoundRequest,
        forall|m: int| i < m < k ==> #[trigger] run.events[m] is Requested,
        (exists|m: int| 0 <= m < k && #[trigger] run.takes(m, peer)) || refused_since(
            run,
            i,
            k,
            peer,
            run.events[i]->RoundRequest_0,
        ),
{
    let h = k - 1;
    assert(run.links(h));
    lemma_dispatcher_lists_heavier(run, h);
    lemma_dispatcher_lists_heavier(run, k);
    let after = run.outcomes[k].stage->Requests_0;
    assert(after.peer_ids.contains(peer));
    let j = choose|j: int| 0 <= j < after.peer_ids.len() && after.peer_ids[j] == peer;
    if run.events[h] is RoundRequest {
        let req = run.events[h]->RoundRequest_0;
        let before = run.outcomes[h].stage->Requests_0;
        let shuffled = choose|shuffled: DispatcherModel| #[trigger]
            before.reordered(shuffled) && asks_for_round(
                run.outcomes[h].sync,
                shuffled,
                req,
                run.outcomes[k],
            );
        assert(shuffled.requested_from.contains(shuffled.peer_ids[j]));
        lemma_requested_from_took(run, k, peer);
        h
    } else {
        let i = lemma_seeking(run, h);
        let before = run.outcomes[h].stage->RoundAsks_0;
        let req = run.outcomes[h].stage->RoundAsks_2;
        lemma_asks_as_stage(run, h);
        assert(before.peer_ids[j] == peer);
        if before.requested_from.contains(peer) {
            lemma_requested_from_took(run, k, peer);
        } else if j == before.next - 1 {
            assert(run.refuses(h, peer, req));
        } else {
            assert(j < before.next);
            assert(refused_since(run, i, h, before.peer_ids[j], req));
            let m = choose|m: int| i < m < h && #[trigger] run.refuses(m, peer, req);
            assert(i < m < k && run.refuses(m, peer, req));
        }
        i
    }
}

/// As long as a known peer with a heavier chain took no request in the run and was not asked for what
/// the round wants, such a peer is asked for it: at once, and after each refusal.
pub proof fn law_round_request_goes_on_to_next_peer<R>(
    run: Run<R>,
    i: int,
    k: int,
    req: HeadersRequest,
    peer: PeerId,
)
    requires
        run.valid(),
        0 <= i <= k < run.events.len(),
        run.events[i] == Event::<R>::RoundRequest(req),
        forall|m: int|
            i < m <= k ==> #[trigger] run.events[m] is Requested && run.events[m]->Requested_0 is Err,
        run.viable(peer),
        forall|m: int| 0 <= m <= k ==> !#[trigger] run.takes(m, peer),
        forall|m: int| i < m <= k ==> !#[trigger] run.refuses(m, peer, req),
    ensures
        run.outcomes[k + 1].action is Request,
        run.outcomes[k + 1].action->Request_1 == req,
        run.viable(run.outcomes[k + 1].action->Request_0),
        forall|m: int|
            0 <= m <= k ==> !#[trigger] run.takes(m, run.outcomes[k + 1].action->Request_0),
        forall|m: int|
            i < m <= k ==> !#[trigger] run.refuses(m, run.outcomes[k + 1].action->Request_0, req),
    decreases k - i,
{
    assert(run.links(k));
    if i < k {
        assert forall|m: int| i < m <= k - 1 implies !#[trigger] run.refuses(m, peer, req) by {
            assert(!run.refuses(m, peer, req));
        }
        law_round_request_goes_on_to_next_peer(run, i, k - 1, req, peer);
        lemma_asks_as_stage(run, k);
        assert(run.links(i));
        assert(run.events[k] is Requested);
        lemma_stays_with_round(run, i, k);
    }
    if run.outcomes[k + 1].action == Action::<R>::Reply(None) {
        let h = lemma_failed_request(run, k + 1, peer);
        if h < i {
            assert(run.events[i] is Requested);
        } else if i < h {
            assert(run.events[h] is Requested);
        }
        assert(refused_since(run, i, k + 1, peer, req));
        let m = choose|m: int| i < m < k + 1 && #[trigger] run.refuses(m, peer, req);
        assert(!run.refuses(m, peer, req));
    }
    law_only_heavier_peers_are_asked(run, k + 1);
    let next = run.outcomes[k + 1].action->Request_0;
    assert forall|m: int| 0 <= m <= k implies !#[trigger] run.takes(m, next) by {
        if run.takes(m, next) {
            law_one_request_per_peer(run, m, k + 1, next);
        }
    }
    assert forall|m: int| i < m <= k implies !#[trigger] run.refuses(m, next, req) by {
        if run.refuses(m, next, req) {
            law_no_peer_is_asked_twice(run, m, k + 1, next);
            let r = choose|r: int| m <= r < k + 1 && #[trigger] run.events[r] is RoundRequest;
            assert(run.events[r] is Requested);
        }
    }
}

/// From the time a round wants something until it learns what came of it, it is that which is asked
/// for.
proof fn lemma_stays_with_round<R>(run: Run<R>, i: int, k: int)
    requires
        run.valid(),
        0 <= i < k < run.outcomes.len(),
        run.events[i] is RoundRequest,
        forall|m: int| i < m < k ==> #[trigger] run.events[m] is Requested,
    ensures
        run.outcomes[k].stage is RoundAsks || run.outcomes[k].stage is Requests,
        run.outcomes[k].stage is RoundAsks ==> run.outcomes[k].stage->RoundAsks_2
            == run.events[i]->RoundRequest_0,
    decreases k,
{
    assert(run.links(k - 1));
    if i < k - 1 {
        lemma_stays_with_round(run, i, k - 1);
        assert(run.events[k - 1] is Requested);
    }
}

/// The peers are asked in turn: the one that is asked is the last that the dispatcher came to.
proof fn lemma_turn<R>(run: Run<R>, i: int, k: int)
    requires
        run.valid(),
        0 <= i <= k < run.outcomes.len(),
        run.outcomes[i].action is Request,
        forall|m: int| i <= m < k ==> !(#[trigger] run.events[m] is RoundRequest),
    ensures
        match run.outcomes[k].stage {
            StageModel::Requests(_) => true,
            StageModel::Done => true,
            StageModel::RoundAsks(_, _, _) => true,
            StageModel::SearchAsks(_, _, _) => true,
            _ => false,
        },
        run.outcomes[k].action is Request ==> {
            let first = dispatcher_of(run.outcomes[i].stage)->0;
            let last = dispatcher_of(run.outcomes[k].stage)->0;
            &&& first.peer_ids == last.peer_ids
            &&& 0 < first.next <= last.next <= last.peer_ids.len()
            &&& i < k ==> first.next < last.next
            &&& last.peer_ids[last.next - 1] == run.outcomes[k].action->Request_0
        },
    decreases k,
{
    lemma_asks_as_stage(run, k);
    if k > 0 {
        assert(run.links(k - 1));
    }
    if i < k {
        lemma_turn(run, i, k - 1);
        lemma_asks_as_stage(run, k - 1);
        assert(!(run.events[k - 1] is RoundRequest));
    }
}

/// Nobody is asked twice for the same thing: between two requests to the same peer the round came
/// with another wish.
pub proof fn law_no_peer_is_asked_twice<R>(run: Run<R>, i: int, k: int, peer: PeerId)
    requires
        run.valid(),
        0 <= i < k < run.outcomes.len(),
        run.outcomes[i].action is Request,
        run.outcomes[i].action->Request_0 == peer,
        run.outcomes[k].action is Request,
        run.outcomes[k].action->Request_0 == peer,
    ensures
        exists|m: int| i <= m < k && #[trigger] run.events[m] is RoundRequest,
{
    if forall|m: int| i <= m < k ==> !(#[trigger] run.events[m] is RoundRequest) {
        lemma_turn(run, i, i);
        lemma_turn(run, i, k);
        lemma_asks_as_stage(run, k);
        lemma_dispatcher_lists_heavier(run, k);
        let first = dispatcher_of(run.outcomes[i].stage)->0;
        let last = dispatcher_of(run.outcomes[k].stage)->0;
        assert(last.peer_ids.no_duplicates());
        assert(last.peer_ids[first.next - 1] == last.peer_ids[last.next - 1]);
    }
}

/// Where a search stands that asks peers in turn: all peers before the one that is asked refused.
spec fn searching<R>(run: Run<R>, k: int) -> bool {
    let d = run.outcomes[k].stage->SearchAsks_0;
    let start = run.outcomes[k].stage->SearchAsks_2;
    &&& run.outcomes[k].stage is SearchAsks
    &&& d.requested_from =~= Set::empty()
    &&& 0 < d.next <= d.peer_ids.len()
    &&& d.peer_ids[d.next - 1] == run.outcomes[k].stage->SearchAsks_1
    &&& forall|j: int|
        0 <= j < d.next - 1 ==> refused_since(
            run,
            -1,
            k,
            #[trigger] d.peer_ids[j],
            ancestor_request(start),
        )
}

proof fn lemma_searching<R>(run: Run<R>, k: int)
    requires
        run.valid(),
        0 <= k < run.outcomes.len(),
        run.outcomes[k].stage is SearchAsks,
    ensures
        searching(run, k),
    decreases k,
{
    let h = k - 1;
    assert(run.links(h));
    if run.outcomes[h].stage is SearchAsks {
        lemma_searching(run, h);
        lemma_asks_as_stage(run, h);
        let before = run.outcomes[h].stage->SearchAsks_0;
        let d = run.outcomes[k].stage->SearchAsks_0;
        let req = ancestor_request(run.outcomes[k].stage->SearchAsks_2);
        assert forall|j: int| 0 <= j < d.next - 1 implies refused_since(
            run,
            -1,
            k,
            #[trigger] d.peer_ids[j],
            req,
        ) by {
            assert(d.peer_ids[j] == before.peer_ids[j]);
            if j < before.next - 1 {
                assert(refused_since(run, -1, h, before.peer_ids[j], req));
                let m = choose|m: int| -1 < m < h && #[trigger]
                    run.refuses(m, d.peer_ids[j], req);
                assert(-1 < m < k && run.refuses(m, d.peer_ids[j], req));
            } else if j == before.next - 1 {
                assert(run.refuses(h, d.peer_ids[j], req));
            } else {
                assert(before.requested_from.contains(before.peer_ids[j]));
            }
        }
    }
}

/// A run leaves a search queued only if each known peer with a heavier chain was asked for the blocks
/// from there downwards and refused.
pub proof fn law_search_stays_queued_only_if_all_refused<R>(
    run: Run<R>,
    k: int,
    start: u64,
    peer: PeerId,
)
    requires
        run.valid(),
        0 <= k < run.outcomes.len(),
        run.outcomes[k].stage is Done,
        run.outcomes[k].sync.state == SyncState::<R>::AncestorSearch(AncestorSearch::Queued(start)),
        run.viable(peer),
    ensures
        exists|m: int|
            0 <= m < k && run.outcomes[m].action is Request && #[trigger] run.refuses(
                m,
                peer,
                run.outcomes[m].action->Request_1,
            ) && run.outcomes[m].action->Request_1.start == HashOrNumber::Number(start)
                && run.outcomes[m].action->Request_1.reverse,
{
    let h = k - 1;
    assert(run.links(h));
    let td = run.chain_info.pending_total_difficulty;
    let req = ancestor_request(start);
    law_run_keeps_peers(run, h);
    if run.outcomes[h].stage is SearchAsks {
        lemma_searching(run, h);
        lemma_asks_as_stage(run, h);
        lemma_dispatcher_lists_heavier(run, h);
        let d = run.outcomes[h].stage->SearchAsks_0;
        assert(d.peer_ids.contains(peer));
        let j = choose|j: int| 0 <= j < d.peer_ids.len() && d.peer_ids[j] == peer;
        if j < d.next - 1 {
            assert(refused_since(run, -1, h, d.peer_ids[j], req));
            let m = choose|m: int| -1 < m < h && #[trigger] run.refuses(m, peer, req);
            assert(run.refuses(m, peer, run.outcomes[m].action->Request_1));
        } else if j == d.next - 1 {
            assert(run.refuses(h, peer, run.outcomes[h].action->Request_1));
        } else {
            assert(d.requested_from.contains(d.peer_ids[j]));
        }
    } else {
        let peers = run.outcomes[h].sync.peers;
        let queued = run.outcomes[h].sync.with_state(
            SyncState::AncestorSearch(AncestorSearch::Queued(start)),
        );
        assert(dispatches(queued, run.chain_info, run.outcomes[k]));
        let ids = choose|ids: Seq<PeerId>| #[trigger]
            lists_heavier(ids, peers, td) && asks_for_search(
                queued,
                DispatcherModel::fresh(ids),
                start,
                run.outcomes[k],
            );
        assert(lists_heavier(ids, peers, td));
        assert(ids.contains(peer));
        let j = choose|j: int| 0 <= j < ids.len() && ids[j] == peer;
        assert(DispatcherModel::fresh(ids).requested_from.contains(
            DispatcherModel::fresh(ids).peer_ids[j],
        ));
    }
}

/// What a search asked a peer for is what the peer's response will be verified against.
pub proof fn law_search_awaits_what_it_asked_for<R>(
    run: Run<R>,
    i: int,
    peer: PeerId,
    req: HeadersRequest,
    id: ReqId,
)
    requires
        run.valid(),
        0 <= i < run.events.len(),
        run.outcomes[i].stage is SearchAsks,
        run.outcomes[i].action == Action::<R>::Request(peer, req),
        run.events[i] == Event::<R>::Requested(Ok(id)),
    ensures
        run.outcomes[i + 1].sync.state is AncestorSearch,
        run.outcomes[i + 1].sync.state->AncestorSearch_0.awaited(id) == Some(req),
{
    assert(run.links(i));
    lemma_asks_as_stage(run, i);
}

/// Headers go to the import queue in the order in which they were drained, none left out, as long as
/// the queue takes them.
pub proof fn law_headers_are_queued_in_order<R>(
    run: Run<R>,
    i: int,
    n: int,
)
    requires
        run.valid(),
        0 <= i,
        0 <= n,
        i + n < run.events.len(),
        run.events[i] is Drained,
        n < run.events[i]->Drained_1@.len(),
        forall|j: int| i < j <= i + n ==> #[trigger] run.events[j] is HeaderQueued,
    ensures
        run.hands_out(i, i + n + 1),
    decreases n,
{
    let headers = run.events[i]->Drained_1@;
    assert(run.links(i + n));
    if n > 0 {
        law_headers_are_queued_in_order(run, i, n - 1);
        assert(run.events[i + n] is HeaderQueued);
        assert(headers.skip(n).drop_first() =~= headers.skip(n + 1));
    } else {
        assert(headers.drop_first() =~= headers.skip(1));
    }
}

/// Once all drained headers are queued, the import queue is looked at again.
pub proof fn law_import_repeats<R>(run: Run<R>, i: int, n: int)
    requires
        run.valid(),
        0 <= i,
        0 < n,
        i + n < run.events.len(),
        run.events[i] is Drained,
        n == run.events[i]->Drained_1@.len(),
        forall|j: int| i < j <= i + n ==> #[trigger] run.events[j] is HeaderQueued,
    ensures
        run.outcomes[i + n + 1].action == Action::<R>::CheckQueue,
        run.outcomes[i + n + 1].sync.state == SyncState::Rounds(run.events[i]->Drained_0),
{
    law_headers_are_queued_in_order(run, i, n - 1);
    lemma_import_keeps_round(run, i, n - 1);
    assert(run.links(i + n));
    assert(run.events[i + n] is HeaderQueued);
}

proof fn lemma_import_keeps_round<R>(run: Run<R>, i: int, n: int)
    requires
        run.valid(),
        0 <= i,
        0 <= n,
        i + n < run.events.len(),
        run.events[i] is Drained,
        n < run.events[i]->Drained_1@.len(),
        forall|j: int| i < j <= i + n ==> #[trigger] run.events[j] is HeaderQueued,
    ensures
        run.outcomes[i + n + 1].sync.state == SyncState::Rounds(run.events[i]->Drained_0),
    decreases n,
{
    assert(run.links(i + n));
    if n > 0 {
        law_headers_are_queued_in_order(run, i, n - 1);
        lemma_import_keeps_round(run, i, n - 1);
        assert(run.events[i + n] is HeaderQueued);
    }
}

/// A header that waits for the import queue was drained earlier in the run.
proof fn lemma_imports_what_was_drained<R>(run: Run<R>, k: int)
    requires
        run.valid(),
        0 <= k < run.outcomes.len(),
        run.outcomes[k].stage is Import,
    ensures
        exists|j: int| run.hands_out(j, k),
    decreases k,
{
    let i = k - 1;
    assert(run.links(i));
    if let Event::Drained(_, drained) = run.events[i] {
        assert(drained@.drop_first() =~= drained@.skip(1));
        assert(run.hands_out(i, k));
    } else {
        lemma_imports_what_was_drained(run, i);
        let j = choose|j: int| run.hands_out(j, i);
        let headers = run.events[j]->Drained_1@;
        let n = k - j - 1;
        assert(headers.skip(n).drop_first() =~= headers.skip(n + 1));
        assert(run.hands_out(j, k));
    }
}

/// When the import queue rejects a header, the peer that supplied the header is disabled.
pub proof fn law_supplier_of_bad_header_is_disabled<R>(run: Run<R>, i: int)
    requires
        run.valid(),
        0 <= i < run.events.len(),
        run.events[i] is HeaderRejected,
    ensures
        exists|j: int| #[trigger]
            run.hands_out(j, i) && run.outcomes[i + 1].action == Action::<R>::DisablePeer(
                run.events[j]->Drained_1@[i - j - 1].0,
            ),
{
    assert(run.links(i));
    lemma_imports_what_was_drained(run, i);
}

/// A peer is disabled for a bad header only right after the import queue rejected one.
pub proof fn law_only_bad_headers_are_punished<R>(run: Run<R>, k: int)
    requires
        run.valid(),
        0 <= k < run.outcomes.len(),
        run.outcomes[k].action is DisablePeer,
    ensures
        k > 0,
        run.events[k - 1] is HeaderRejected,
{
    if k > 0 {
        assert(run.links(k - 1));
    }
}

/// Once a header was rejected, the run takes no more headers from a round and queues none.
pub proof fn law_nothing_is_queued_after_bad_header<R>(run: Run<R>, i: int, k: int)
    requires
        run.valid(),
        0 <= i < k < run.outcomes.len(),
        run.events[i] is HeaderRejected,
    ensures
        !(run.outcomes[k].action is QueueHeader),
        !(run.outcomes[k].action is DrainRound),
{
    lemma_import_is_over(run, i, k);
}

proof fn lemma_import_is_over<R>(run: Run<R>, i: int, k: int)
    requires
        run.valid(),
        0 <= i < k < run.outcomes.len(),
        run.events[i] is HeaderRejected,
    ensures
        !(run.outcomes[k].action is QueueHeader),
        !(run.outcomes[k].action is DrainRound),
        !(run.outcomes[k].stage is CheckQueue),
        !(run.outcomes[k].stage is Drain),
        !(run.outcomes[k].stage is Import),
    decreases k,
{
    assert(run.links(k - 1));
    if k > i + 1 {
        lemma_import_is_over(run, i, k - 1);
    }
}

} // verus!
