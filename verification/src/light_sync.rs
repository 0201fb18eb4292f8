//! The light client synchronization manager.
use rand::OsRng;
use std::collections::{HashMap, HashSet, VecDeque};
use vstd::prelude::*;
use crate::ancestor::{
    probes_of, settled, AncestorSearch, BadResponse, HeadersRequest, ProbedHeader,
};
use crate::chain::{max_chain, ChainInfo};
use crate::dispatch::{Dispatcher, DispatcherModel};
use crate::events::{
    accepts, announced, announcement_outcome, connected, departs, handling_of, headers_of, ids_of,
    lemma_ids_of_push, received, wrong_type_of, Announcement, AnnouncementOutcome, Capabilities,
    Departure, Handling, PeerStatus, Reception, Response, ResponseCtx, Status,
};
use crate::info::{highest_seen, SyncInfo, EMPTY_QUEUE};
use crate::maintain::{
    asks_for_round, asks_for_search, awaits, dispatches, imports, resets, stage_wf, steps, transitions,
    Action, Event, Maintenance, MaintenanceModel, Outcome, Stage, StageModel, DRAIN_AMOUNT,
};
use crate::peers::{best_of_peers, heavier_peers, lemma_reordered_listing, Peer};
use crate::primitives::{PeerId, ReqId};
use crate::rng::os_rng;
use crate::state::{
    AbortReason, BlockChainInfo, Header, QueueInfo, SyncModel, SyncRound, SyncState,
};

verus! {

broadcast use vstd::std_specs::hash::group_hash_axioms;

/// Light client synchronization manager. See the crate docs for more details.
///
/// `R` is what a running sync round holds.
pub struct LightSync<R> {
    start_block_number: u64,
    best_seen: Option<ChainInfo>,
    peers: HashMap<PeerId, Peer>,
    pending_reqs: HashSet<usize>,
    rng: OsRng,
    state: SyncState<R>,
}

impl<R> View for LightSync<R> {
    type V = SyncModel<R>;

    closed spec fn view(&self) -> SyncModel<R> {
        SyncModel {
            start_block: self.start_block_number,
            best_seen: self.best_seen,
            peers: self.peers@,
            pending: self.pending_reqs@,
            state: self.state,
        }
    }
}

// sync maintenance
impl<R> LightSync<R> {
    /// Takes the state out, leaving `Idle` in its place.
    fn take_state(&mut self) -> (res: SyncState<R>)
        ensures
            res == old(self)@.state,
            final(self)@ == old(self)@.with_state(SyncState::Idle),
    {
        let mut state = SyncState::Idle;
        std::mem::swap(&mut self.state, &mut state);
        state
    }

    /// Begins a search for the common ancestor and our best block. Tells whether there is anything
    /// to search for; then the import queue is to be cleared before the search starts.
    fn begin_search(&mut self) -> (flush: bool)
        ensures
            flush == old(self)@.best_seen is Some,
            final(self)@ == if flush {
                old(self)@
            } else {
                old(self)@.with_state(SyncState::Idle)
            },
    {
        if self.best_seen.is_none() {
            // no peers.
            self.state = SyncState::Idle;
            return false;
        }
        true
    }

    /// Turns to a new search, or dispatches requests if there is nothing to search for.
    fn reset(&mut self, chain_info: &BlockChainInfo) -> (res: (Stage, Action<R>))
        ensures
            resets(
                old(self)@,
                *chain_info,
                (Outcome { sync: final(self)@, stage: res.0@, action: res.1 }),
            ),
    {
        if self.begin_search() {
            (Stage::Reset, Action::FlushQueue)
        } else {
            self.dispatch(chain_info)
        }
    }

    /// Allows dispatching of requests.
    fn dispatch(&mut self, chain_info: &BlockChainInfo) -> (res: (Stage, Action<R>))
        ensures
            dispatches(
                old(self)@,
                *chain_info,
                (Outcome { sync: final(self)@, stage: res.0@, action: res.1 }),
            ),
    {
        let state = self.take_state();
        match state {
            SyncState::Rounds(round) => {
                let peer_ids = heavier_peers(&self.peers, chain_info.pending_total_difficulty);
                (Stage::Requests(Dispatcher::new(peer_ids)), Action::DispatchRound(round))
            },
            SyncState::AncestorSearch(AncestorSearch::Queued(start)) => {
                let peer_ids = heavier_peers(&self.peers, chain_info.pending_total_difficulty);
                let ghost listed = peer_ids@;
                let mut dispatcher = Dispatcher::new(peer_ids);
                dispatcher.shuffle(&mut self.rng);
                proof {
                    lemma_reordered_listing(
                        listed,
                        dispatcher@.peer_ids,
                        self@.peers,
                        chain_info.pending_total_difficulty,
                    );
                    assert(dispatcher@ == DispatcherModel::fresh(dispatcher@.peer_ids));
                }
                self.ask_for_search(dispatcher, start)
            },
            other => {
                self.state = other;
                (Stage::Done, Action::Finish)
            },
        }
    }

    /// Asks the next peer for what the search wants.
    fn ask_for_search(&mut self, dispatcher: Dispatcher, start: u64) -> (res: (Stage, Action<R>))
        ensures
            asks_for_search(
                old(self)@,
                dispatcher@,
                start,
                (Outcome { sync: final(self)@, stage: res.0@, action: res.1 }),
            ),
    {
        let mut dispatcher = dispatcher;
        let search = AncestorSearch::Queued(start);
        match (dispatcher.next_peer(), search.wanted_request()) {
            (Some(peer), Some(req)) => {
                self.state = SyncState::Idle;
                (Stage::SearchAsks(dispatcher, peer, start), Action::Request(peer, req))
            },
            _ => {
                self.state = SyncState::AncestorSearch(search.dispatch_request(None));
                (Stage::Done, Action::Finish)
            },
        }
    }

    /// Asks the next peer for what the round wants.
    fn ask_for_round(&mut self, dispatcher: Dispatcher, req: HeadersRequest) -> (res: (
        Stage,
        Action<R>,
    ))
        ensures
            asks_for_round(
                old(self)@,
                dispatcher@,
                req,
                (Outcome { sync: final(self)@, stage: res.0@, action: res.1 }),
            ),
    {
        let mut dispatcher = dispatcher;
        match dispatcher.next_peer() {
            Some(peer) => (Stage::RoundAsks(dispatcher, peer, req), Action::Request(peer, req)),
            None => (Stage::Requests(dispatcher), Action::Reply(None)),
        }
    }

    /// Hands the first of the drained headers to the import queue.
    fn import_next(&mut self, headers: VecDeque<(PeerId, Header)>) -> (res: (Stage, Action<R>))
        requires
            headers@.len() > 0,
        ensures
            imports(
                old(self)@,
                headers@,
                (Outcome { sync: final(self)@, stage: res.0@, action: res.1 }),
            ),
    {
        let mut headers = headers;
        let ghost all = headers@;
        match headers.pop_front() {
            Some((supplier, header)) => {
                assert(headers@ == all.drop_first());
                (Stage::Import(supplier, headers), Action::QueueHeader(header))
            },
            None => (Stage::CheckQueue, Action::CheckQueue),
        }
    }

    /// Handles state transitions.
    fn transition(&mut self, chain_info: &BlockChainInfo) -> (res: (Stage, Action<R>))
        ensures
            transitions(
                old(self)@,
                *chain_info,
                (Outcome { sync: final(self)@, stage: res.0@, action: res.1 }),
            ),
    {
        let best_td = chain_info.pending_total_difficulty;
        let target = match self.best_seen {
            Some(target) if target.head_td > best_td => (target.head_num, target.head_hash),
            _ => {
                // no target to sync to.
                self.state = SyncState::Idle;
                return (Stage::Done, Action::Finish);
            },
        };
        let state = self.take_state();
        match state {
            SyncState::Rounds(SyncRound::Abort(reason, remaining)) => {
                if remaining.len() > 0 {
                    self.state = SyncState::Rounds(SyncRound::Abort(reason, remaining));
                    return (Stage::Done, Action::Finish);
                }
                match reason {
                    AbortReason::BadScaffold(bad_peers) => {
                        (Stage::Punish, Action::DisablePeers(bad_peers))
                    },
                    AbortReason::NoResponses => self.reset(chain_info),
                    AbortReason::TargetReached => (Stage::Done, Action::Finish),
                }
            },
            SyncState::AncestorSearch(AncestorSearch::FoundCommon(num, hash)) => {
                (Stage::BeginRound, Action::BeginRound((num, hash), target))
            },
            SyncState::AncestorSearch(AncestorSearch::Genesis) => {
                (Stage::BeginRound, Action::BeginRound((0, chain_info.genesis_hash), target))
            },
            SyncState::Idle => self.reset(chain_info),
            other => {
                // restore displaced state.
                self.state = other;
                self.dispatch(chain_info)
            },
        }
    }

    /// Handles request dispatch, block import, and state machine transitions, up to the next piece
    /// of work that others have to do. `event` tells what came of the last one.
    pub fn maintain_sync(&mut self, run: Maintenance, event: Event<R>) -> (res: (
        Maintenance,
        Action<R>,
    ))
        requires
            awaits(run@.stage, event),
        ensures
            res.0@.chain_info == run@.chain_info,
            steps(
                old(self)@,
                run@,
                event,
                (Outcome { sync: final(self)@, stage: res.0@.stage, action: res.1 }),
            ),
            old(self)@.wf() && stage_wf(run@.stage) ==> final(self)@.wf() && stage_wf(res.0@.stage),
    {
        let chain_info = run.chain_info;
        let (stage, action) = match (run.stage, event) {
            (Stage::CheckQueue, Event::QueueChecked(full)) => {
                let state = self.take_state();
                match state {
                    SyncState::Rounds(round) if !full => {
                        (Stage::Drain, Action::DrainRound(round, DRAIN_AMOUNT))
                    },
                    other => {
                        self.state = other;
                        self.transition(&chain_info)
                    },
                }
            },
            (Stage::Drain, Event::Drained(round, headers)) => {
                self.state = SyncState::Rounds(round);
                if headers.len() == 0 {
                    self.transition(&chain_info)
                } else {
                    self.import_next(headers)
                }
            },
            (Stage::Import(_, headers), Event::HeaderQueued) => {
                if headers.len() == 0 {
                    (Stage::CheckQueue, Action::CheckQueue)
                } else {
                    self.import_next(headers)
                }
            },
            (Stage::Import(supplier, _), Event::HeaderRejected) => {
                // found bad header.
                (Stage::PunishImport, Action::DisablePeer(supplier))
            },
            (Stage::PunishImport, Event::PeersDisabled) => {
                // reset to search state.
                if self.begin_search() {
                    (Stage::ResetImport, Action::FlushQueue)
                } else {
                    self.transition(&chain_info)
                }
            },
            (Stage::ResetImport, Event::QueueFlushed(best)) => {
                self.state = SyncState::AncestorSearch(AncestorSearch::begin(best));
                self.transition(&chain_info)
            },
            (Stage::Punish, Event::PeersDisabled) => self.reset(&chain_info),
            (Stage::Reset, Event::QueueFlushed(best)) => {
                self.state = SyncState::AncestorSearch(AncestorSearch::begin(best));
                self.dispatch(&chain_info)
            },
            (Stage::BeginRound, Event::RoundBegun(round)) => {
                self.state = SyncState::Rounds(round);
                self.dispatch(&chain_info)
            },
            (Stage::Requests(dispatcher), Event::RoundRequest(req)) => {
                let mut shuffled = dispatcher;
                shuffled.shuffle(&mut self.rng);
                assert(dispatcher@.reordered(shuffled@));
                self.ask_for_round(shuffled, req)
            },
            (Stage::Requests(_), Event::RoundDispatched(round)) => {
                self.state = SyncState::Rounds(round);
                (Stage::Done, Action::Finish)
            },
            (Stage::RoundAsks(dispatcher, peer, req), Event::Requested(result)) => match result {
                Ok(id) => {
                    let mut dispatcher = dispatcher;
                    self.pending_reqs.insert(id.0);
                    dispatcher.requested(peer);
                    (Stage::Requests(dispatcher), Action::Reply(Some(id)))
                },
                Err(_) => self.ask_for_round(dispatcher, req),
            },
            (Stage::SearchAsks(dispatcher, _, start), Event::Requested(result)) => match result {
                Ok(id) => {
                    self.pending_reqs.insert(id.0);
                    let search = AncestorSearch::Queued(start).dispatch_request(Some(id));
                    self.state = SyncState::AncestorSearch(search);
                    (Stage::Done, Action::Finish)
                },
                Err(_) => self.ask_for_search(dispatcher, start),
            },
            _ => (Stage::Done, Action::Finish),
        };
        (Maintenance { chain_info, stage }, action)
    }
}

// network events
impl<R> LightSync<R> {
    /// A peer connected. Synchronization keeps it if it serves headers.
    pub fn on_connect(&mut self, peer: PeerId, status: &Status, capabilities: &Capabilities) -> (res:
        PeerStatus)
        ensures
            capabilities.serve_headers ==> res == PeerStatus::Kept && final(self)@ == connected(
                old(self)@,
                peer,
                status.chain(),
            ),
            !capabilities.serve_headers ==> res == PeerStatus::Unkept && final(self)@ == old(self)@,
            old(self)@.wf() ==> final(self)@.wf(),
    {
        if capabilities.serve_headers {
            let chain_info = ChainInfo {
                head_td: status.head_td,
                head_hash: status.head_hash,
                head_num: status.head_num,
            };
            self.best_seen = max_chain(self.best_seen, Some(chain_info));
            self.peers.insert(peer, Peer::new(chain_info));
            PeerStatus::Kept
        } else {
            PeerStatus::Unkept
        }
    }

    /// A peer disconnected and left these requests unfulfilled.
    pub fn on_disconnect(&mut self, peer: PeerId, unfulfilled: &[ReqId]) -> (res: Departure<R>)
        ensures
            departs(old(self)@, peer, unfulfilled@, final(self)@, res),
            old(self)@.wf() ==> final(self)@.wf(),
    {
        let status = match self.peers.remove(&peer) {
            Some(peer) => peer.status,
            None => {
                assert(self@.peers =~= old(self)@.peers);
                return Departure::Unknown;
            },
        };

        if let Some(best) = self.best_seen {
            if best == status {
                // search for next-best block.
                self.best_seen = best_of_peers(&self.peers);
            }
        }
        self.forget_requests(unfulfilled);

        let state = self.take_state();
        if self.best_seen.is_none() {
            // no peers remain. revert to idle.
            return Departure::Maintain;
        }
        match state {
            SyncState::Idle => Departure::Maintain,
            SyncState::AncestorSearch(search) => {
                self.state = SyncState::AncestorSearch(search.requests_abandoned(unfulfilled));
                Departure::Maintain
            },
            SyncState::Rounds(round) => Departure::AbandonRequests(round),
        }
    }

    /// Stops waiting for responses to the given requests.
    fn forget_requests(&mut self, requests: &[ReqId])
        ensures
            final(self)@ == (SyncModel {
                pending: old(self)@.pending.difference(ids_of(requests@)),
                ..old(self)@
            }),
    {
        let mut i: usize = 0;
        while i < requests.len()
            invariant
                i <= requests.len(),
                self@ == (SyncModel {
                    pending: old(self)@.pending.difference(ids_of(requests@.take(i as int))),
                    ..old(self)@
                }),
            decreases requests.len() - i,
        {
            let ghost before = requests@.take(i as int);
            self.pending_reqs.remove(&requests[i].0);
            i += 1;
            proof {
                assert(requests@.take(i as int) == before.push(requests@[i - 1]));
                lemma_ids_of_push(before, requests@[i - 1]);
            }
        }
        assert(requests@.take(i as int) == requests@);
    }

    /// A peer announced a new chain head.
    pub fn on_announcement(&mut self, peer: PeerId, announcement: &Announcement) -> (res:
        AnnouncementOutcome)
        ensures
            res == announcement_outcome(old(self)@, peer, announcement.chain()),
            final(self)@ == announced(old(self)@, peer, announcement.chain()),
            res == AnnouncementOutcome::Unknown <==> !old(self)@.peers.contains_key(peer),
            res == AnnouncementOutcome::Disconnect <==> old(self)@.peers.contains_key(peer)
                && announcement.head_td@ < old(self)@.peers[peer].status.head_td@,
            old(self)@.wf() ==> final(self)@.wf(),
    {
        let last_td = match self.peers.get(&peer) {
            None => return AnnouncementOutcome::Unknown,
            Some(known) => known.status.head_td,
        };
        let chain_info = ChainInfo {
            head_td: announcement.head_td,
            head_hash: announcement.head_hash,
            head_num: announcement.head_num,
        };
        self.peers.insert(peer, Peer::new(chain_info));
        if last_td > announcement.head_td {
            // the peer moved backwards.
            self.peers.remove(&peer);
            return AnnouncementOutcome::Disconnect;
        }
        self.best_seen = max_chain(self.best_seen, Some(chain_info));
        AnnouncementOutcome::Maintain
    }

    /// A peer responded to a request.
    pub fn on_responses<'a>(
        &mut self,
        peer: PeerId,
        req_id: ReqId,
        responses: &'a [Response],
    ) -> (res: Reception<'a, R>)
        ensures
            match res {
                Reception::Ignored => !accepts(old(self)@, peer, req_id) && final(self)@ == old(
                    self,
                )@,
                Reception::Taken { ctx, wrong_type, handling } => {
                    &&& accepts(old(self)@, peer, req_id)
                    &&& final(self)@ == received(old(self)@, req_id)
                    &&& ctx.peer == peer
                    &&& ctx.req_id == req_id
                    &&& ctx.data@ == headers_of(responses@)
                    &&& responses@.len() > 0 && responses@[0] is Headers ==> ctx.data@
                        == responses@[0]->Headers_0@
                    &&& responses@.len() == 0 || responses@[0] is Other ==> ctx.data@.len() == 0
                    &&& wrong_type == wrong_type_of(responses@)
                    &&& wrong_type <==> responses@.len() > 0 && responses@[0] is Other
                    &&& handling == handling_of(old(self)@.state, req_id)
                },
            },
            old(self)@.wf() ==> final(self)@.wf(),
    {
        if !self.peers.contains_key(&peer) {
            return Reception::Ignored;
        }
        if !self.pending_reqs.remove(&req_id.0) {
            assert(self@.pending =~= old(self)@.pending);
            return Reception::Ignored;
        }
        let mut data: &'a [Header] = &[];
        let mut wrong_type = false;
        if responses.len() > 0 {
            match &responses[0] {
                Response::Headers(headers) => {
                    data = headers.as_slice();
                },
                Response::Other => {
                    wrong_type = true;
                },
            }
        }
        let ctx = ResponseCtx { peer, req_id, data };

        let state = self.take_state();
        let handling = match state {
            SyncState::Idle => Handling::Nothing,
            SyncState::AncestorSearch(search) => {
                self.state = SyncState::AncestorSearch(search);
                match search.awaited_request(&req_id) {
                    Some(req) => Handling::Verify(req),
                    None => Handling::Nothing,
                }
            },
            SyncState::Rounds(round) => Handling::Process(round),
        };
        Reception::Taken { ctx, wrong_type, handling }
    }

    /// Reports what verifying a response for the ancestor search brought. Tells whether the responder
    /// is to be punished.
    pub fn on_verified(
        &mut self,
        req_id: &ReqId,
        verified: Result<Vec<ProbedHeader>, BadResponse>,
        first_block_number: Option<u64>,
    ) -> (punish: bool)
        requires
            old(self)@.state matches SyncState::AncestorSearch(search) ==> (verified matches Ok(
                probes,
            ) ==> search.admits(*req_id, probes@.len()) || settled(
                probes@,
                first_block_number.unwrap_or(0),
            )),
        ensures
            match old(self)@.state {
                SyncState::AncestorSearch(search) => {
                    &&& final(self)@ == old(self)@.with_state(
                        SyncState::AncestorSearch(
                            search.responded(
                                *req_id,
                                probes_of(verified),
                                first_block_number.unwrap_or(0),
                            ),
                        ),
                    )
                    &&& punish <==> search.awaited(*req_id) is Some && verified is Err
                },
                _ => final(self)@ == old(self)@ && !punish,
            },
            old(self)@.wf() ==> final(self)@.wf(),
    {
        let state = self.take_state();
        match state {
            SyncState::AncestorSearch(search) => {
                let (search, punish) = search.process_response(
                    req_id,
                    verified,
                    first_block_number,
                );
                self.state = SyncState::AncestorSearch(search);
                punish
            },
            other => {
                self.state = other;
                false
            },
        }
    }

    /// Takes a round back that was handed out to learn of abandoned requests or of a response.
    pub fn on_round(&mut self, round: SyncRound<R>)
        ensures
            final(self)@ == old(self)@.with_state(SyncState::Rounds(round)),
            old(self)@.wf() ==> final(self)@.wf(),
    {
        self.state = SyncState::Rounds(round);
    }

    /// Time went by: sync maintenance is due.
    pub fn tick(&self, chain_info: BlockChainInfo) -> (res: (Maintenance, Action<R>))
        ensures
            res.0@ == (MaintenanceModel { chain_info, stage: StageModel::CheckQueue }),
            res.1 == Action::<R>::CheckQueue,
    {
        Maintenance::begin(chain_info)
    }
}

// public API
impl<R> LightSync<R> {
    /// Create a new instance of `LightSync`, given what is known of our chain.
    ///
    /// This won't do anything until it is told of events. It fails if the operating system offers
    /// no randomness.
    pub fn new(chain_info: &BlockChainInfo) -> (res: Result<Self, std::io::Error>)
        ensures
            res matches Ok(sync) ==> sync@ == SyncModel::<R>::initial(chain_info.best_block_number)
                && sync@.wf(),
    {
        LightSync::with_rng(chain_info, os_rng())
    }

    /// Create a new instance of `LightSync` from an attempt to open a source of randomness.
    ///
    /// It succeeds exactly if the attempt did, and hands on the error otherwise.
    pub fn with_rng(
        chain_info: &BlockChainInfo,
        rng: Result<OsRng, std::io::Error>,
    ) -> (res: Result<Self, std::io::Error>)
        ensures
            match rng {
                Ok(_) => {
                    &&& res matches Ok(sync)
                    &&& sync@ == SyncModel::<R>::initial(chain_info.best_block_number)
                    &&& sync@.wf()
                },
                Err(e) => res == Err::<Self, std::io::Error>(e),
            },
    {
        match rng {
            Ok(rng) => Ok(
                LightSync {
                    start_block_number: chain_info.best_block_number,
                    best_seen: None,
                    peers: HashMap::new(),
                    pending_reqs: HashSet::new(),
                    rng,
                    state: SyncState::Idle,
                },
            ),
            Err(e) => Err(e),
        }
    }

    /// Where synchronization stands.
    pub fn state(&self) -> (res: &SyncState<R>)
        ensures
            *res == self@.state,
    {
        &self.state
    }
}

impl<R> SyncInfo for LightSync<R> {
    fn highest_block(&self) -> (res: Option<u64>)
        ensures
            res == highest_seen(self@.best_seen),
            res is Some <==> self@.best_seen is Some,
            res is Some ==> res->0 == self@.best_seen->0.head_num,
    {
        match self.best_seen {
            Some(best) => Some(best.head_num),
            None => None,
        }
    }

    fn start_block(&self) -> (res: u64)
        ensures
            res == self@.start_block,
    {
        self.start_block_number
    }

    fn is_major_importing(&self, queue_info: &QueueInfo) -> (res: bool)
        ensures
            res <==> queue_info.unverified_queue_size > EMPTY_QUEUE || self@.state !is Idle,
    {
        if queue_info.unverified_queue_size > EMPTY_QUEUE {
            return true;
        }
        match self.state {
            SyncState::Idle => false,
            _ => true,
        }
    }
}

} // verus!
