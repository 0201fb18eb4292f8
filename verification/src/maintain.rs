//! The steps of sync maintenance: request dispatch, block import and state machine transitions.
//!
//! Maintenance alternates decisions with work that others do: the client imports headers, the
//! network carries requests, a round keeps its own books. Each decision hands out one [`Action`] to
//! perform and waits for the [`Event`] that tells what came of it.
use std::collections::VecDeque;
use vstd::prelude::*;
use crate::ancestor::{ancestor_request, search_from, AncestorSearch, HeadersRequest};
use crate::chain::ChainInfo;
use crate::dispatch::{Dispatcher, DispatcherModel};
use crate::peers::lists_heavier;
use crate::primitives::{PeerId, ReqId, U256};
use crate::state::{
    AbortReason, BlockChainInfo, BlockDescriptor, Header, SyncModel, SyncRound, SyncState,
};

verus! {

/// How many headers are taken from a round at a time.
pub const DRAIN_AMOUNT: usize = 128;

/// Work that maintenance asks for.
#[derive(Debug)]
pub enum Action<R> {
    /// Look whether the import queue is full.
    CheckQueue,
    /// Take headers from the round, at most this many.
    DrainRound(SyncRound<R>, usize),
    /// Add the header to the import queue.
    QueueHeader(Header),
    /// Clear the import queue, then look up our best block.
    FlushQueue,
    /// Disable the peer, which supplied a bad header.
    DisablePeer(PeerId),
    /// Disable the peers, one after the other.
    DisablePeers(Vec<PeerId>),
    /// Begin a round from a common block towards a target.
    BeginRound(BlockDescriptor, BlockDescriptor),
    /// Let the round dispatch its requests.
    DispatchRound(SyncRound<R>),
    /// Ask the peer for headers.
    Request(PeerId, HeadersRequest),
    /// Tell the round under which identifier its request was sent, if any peer took it.
    Reply(Option<ReqId>),
    /// Nothing more to do.
    Finish,
}

/// Why a peer did not take a request.
#[derive(Debug, Clone, Copy, PartialEq, Eq, Structural)]
pub enum RequestError {
    /// Our credits with the peer do not allow it.
    NoCredits,
    /// Any other failure.
    Failed,
}

/// What came of the work that maintenance asked for.
#[derive(Debug)]
pub enum Event<R> {
    /// Whether the import queue is full.
    QueueChecked(bool),
    /// The round, and the headers that were taken from it, each with the peer that supplied it.
    Drained(SyncRound<R>, VecDeque<(PeerId, Header)>),
    /// The header was added to the import queue.
    HeaderQueued,
    /// The header is bad and was not added to the import queue.
    HeaderRejected,
    /// The import queue was cleared; our best block has this number.
    QueueFlushed(u64),
    /// The peers that were to be disabled are.
    PeersDisabled,
    /// The round that was begun.
    RoundBegun(SyncRound<R>),
    /// The round wants to send this request.
    RoundRequest(HeadersRequest),
    /// The round has no more requests to send.
    RoundDispatched(SyncRound<R>),
    /// The request was sent under this identifier, or it was not.
    Requested(Result<ReqId, RequestError>),
}

/// How far maintenance got, and what it waits for.
pub enum Stage {
    /// For the state of the import queue.
    CheckQueue,
    /// For headers from the round.
    Drain,
    /// For what the import queue makes of a header that this peer supplied, with these headers to
    /// follow.
    Import(PeerId, VecDeque<(PeerId, Header)>),
    /// For the supplier of a bad header to be disabled.
    PunishImport,
    /// For the queue to be cleared because of a bad header.
    ResetImport,
    /// For bad peers to be disabled.
    Punish,
    /// For the queue to be cleared, to begin a search.
    Reset,
    /// For a round to begin.
    BeginRound,
    /// For the round's requests.
    Requests(Dispatcher),
    /// For what the peer makes of a request of the round.
    RoundAsks(Dispatcher, PeerId, HeadersRequest),
    /// For what the peer makes of the request of the search that is queued at this block.
    SearchAsks(Dispatcher, PeerId, u64),
    /// For nothing.
    Done,
}

/// Maintenance under way.
pub struct Maintenance {
    /// Our chain as it was when maintenance began.
    pub chain_info: BlockChainInfo,
    /// How far it got.
    pub stage: Stage,
}

/// How far maintenance got.
#[verifier::ext_equal]
pub ghost enum StageModel {
    CheckQueue,
    Drain,
    Import(PeerId, Seq<(PeerId, Header)>),
    PunishImport,
    ResetImport,
    Punish,
    Reset,
    BeginRound,
    Requests(DispatcherModel),
    RoundAsks(DispatcherModel, PeerId, HeadersRequest),
    SearchAsks(DispatcherModel, PeerId, u64),
    Done,
}

/// Maintenance under way.
#[verifier::ext_equal]
pub ghost struct MaintenanceModel {
    pub chain_info: BlockChainInfo,
    pub stage: StageModel,
}

impl View for Stage {
    type V = StageModel;

    open spec fn view(&self) -> StageModel {
        match *self {
            Stage::CheckQueue => StageModel::CheckQueue,
            Stage::Drain => StageModel::Drain,
            Stage::Import(supplier, headers) => StageModel::Import(supplier, headers@),
            Stage::PunishImport => StageModel::PunishImport,
            Stage::ResetImport => StageModel::ResetImport,
            Stage::Punish => StageModel::Punish,
            Stage::Reset => StageModel::Reset,
            Stage::BeginRound => StageModel::BeginRound,
            Stage::Requests(dispatcher) => StageModel::Requests(dispatcher@),
            Stage::RoundAsks(dispatcher, peer, req) =>
                StageModel::RoundAsks(dispatcher@, peer, req),
            Stage::SearchAsks(dispatcher, peer, start) =>
                StageModel::SearchAsks(dispatcher@, peer, start),
            Stage::Done => StageModel::Done,
        }
    }
}

impl View for Maintenance {
    type V = MaintenanceModel;

    open spec fn view(&self) -> MaintenanceModel {
        MaintenanceModel { chain_info: self.chain_info, stage: self.stage@ }
    }
}

/// What a step leaves behind: what is known, how far maintenance got, what is to be done.
#[verifier::ext_equal]
pub ghost struct Outcome<R> {
    pub sync: SyncModel<R>,
    pub stage: StageModel,
    pub action: Action<R>,
}

/// Whether a search whose request is under way can run.
pub open spec fn stage_wf(stage: StageModel) -> bool {
    stage matches StageModel::SearchAsks(_, _, start) ==> start > 0
}

/// Whether maintenance at this stage waits for an event of this kind.
pub open spec fn awaits<R>(stage: StageModel, event: Event<R>) -> bool {
    match (stage, event) {
        (StageModel::CheckQueue, Event::QueueChecked(_)) => true,
        (StageModel::Drain, Event::Drained(_, _)) => true,
        (StageModel::Import(_, _), Event::HeaderQueued) => true,
        (StageModel::Import(_, _), Event::HeaderRejected) => true,
        (StageModel::PunishImport, Event::PeersDisabled) => true,
        (StageModel::ResetImport, Event::QueueFlushed(_)) => true,
        (StageModel::Punish, Event::PeersDisabled) => true,
        (StageModel::Reset, Event::QueueFlushed(_)) => true,
        (StageModel::BeginRound, Event::RoundBegun(_)) => true,
        (StageModel::Requests(_), Event::RoundRequest(_)) => true,
        (StageModel::Requests(_), Event::RoundDispatched(_)) => true,
        (StageModel::RoundAsks(_, _, _), Event::Requested(_)) => true,
        (StageModel::SearchAsks(_, _, _), Event::Requested(_)) => true,
        _ => false,
    }
}

/// The block to synchronize to: the best seen, if its chain is heavier than ours.
pub open spec fn sync_target(best_seen: Option<ChainInfo>, best_td: U256) -> Option<
    BlockDescriptor,
> {
    match best_seen {
        Some(target) if target.head_td@ > best_td@ => Some((target.head_num, target.head_hash)),
        _ => None,
    }
}

/// The next of the drained headers is handed to the import queue.
pub open spec fn imports<R>(
    sync: SyncModel<R>,
    headers: Seq<(PeerId, Header)>,
    out: Outcome<R>,
) -> bool {
    &&& headers.len() > 0
    &&& out == (Outcome {
        sync,
        stage: StageModel::Import(headers[0].0, headers.drop_first()),
        action: Action::QueueHeader(headers[0].1),
    })
}

/// The common block from which a round can begin, once a search found one.
pub open spec fn common_block(search: AncestorSearch, genesis: BlockDescriptor) -> Option<
    BlockDescriptor,
> {
    match search {
        AncestorSearch::FoundCommon(num, hash) => Some((num, hash)),
        AncestorSearch::Genesis => Some(genesis),
        _ => None,
    }
}

/// A search is about to begin: the import queue is cleared first. Without any peer seen there is
/// nothing to search for.
pub open spec fn resets<R>(
    sync: SyncModel<R>,
    chain_info: BlockChainInfo,
    out: Outcome<R>,
) -> bool {
    if sync.best_seen is Some {
        out == (Outcome { sync, stage: StageModel::Reset, action: Action::FlushQueue })
    } else {
        dispatches(sync.with_state(SyncState::Idle), chain_info, out)
    }
}

/// The state transitions, once the import queue took what it could. Without a target everything
/// stops. An aborted round is followed by a new search, or by rest if it reached its target; a
/// search that found a common block is followed by a round.
pub open spec fn transitions<R>(
    sync: SyncModel<R>,
    chain_info: BlockChainInfo,
    out: Outcome<R>,
) -> bool {
    let idle = sync.with_state(SyncState::Idle);
    match sync_target(sync.best_seen, chain_info.pending_total_difficulty) {
        None => out == (Outcome { sync: idle, stage: StageModel::Done, action: Action::Finish }),
        Some(target) => match sync.state {
            SyncState::Rounds(SyncRound::Abort(reason, remaining)) => if remaining@.len() > 0 {
                out == (Outcome { sync, stage: StageModel::Done, action: Action::Finish })
            } else {
                match reason {
                    AbortReason::BadScaffold(bad_peers) => out == (Outcome {
                        sync: idle,
                        stage: StageModel::Punish,
                        action: Action::DisablePeers(bad_peers),
                    }),
                    AbortReason::NoResponses => resets(idle, chain_info, out),
                    AbortReason::TargetReached => out == (Outcome {
                        sync: idle,
                        stage: StageModel::Done,
                        action: Action::Finish,
                    }),
                }
            },
            SyncState::AncestorSearch(search) => match common_block(
                search,
                (0, chain_info.genesis_hash),
            ) {
                Some(common) => out == (Outcome {
                    sync: idle,
                    stage: StageModel::BeginRound,
                    action: Action::BeginRound(common, target),
                }),
                None => dispatches(sync, chain_info, out),
            },
            SyncState::Idle => resets(idle, chain_info, out),
            SyncState::Rounds(SyncRound::Running(_)) => dispatches(sync, chain_info, out),
        },
    }
}

/// Requests are dispatched among the peers whose chain is heavier than ours: those of the round, or
/// that of a queued search.
pub open spec fn dispatches<R>(
    sync: SyncModel<R>,
    chain_info: BlockChainInfo,
    out: Outcome<R>,
) -> bool {
    let td = chain_info.pending_total_difficulty;
    match sync.state {
        SyncState::Rounds(round) => {
            &&& out.sync == sync.with_state(SyncState::Idle)
            &&& out.action == Action::DispatchRound(round)
            &&& exists|ids: Seq<PeerId>| #[trigger]
                lists_heavier(ids, sync.peers, td) && out.stage == StageModel::Requests(
                    DispatcherModel::fresh(ids),
                )
        },
        SyncState::AncestorSearch(AncestorSearch::Queued(start)) => exists|ids: Seq<PeerId>|
            #[trigger] lists_heavier(ids, sync.peers, td) && asks_for_search(
                sync,
                DispatcherModel::fresh(ids),
                start,
                out,
            ),
        _ => out == (Outcome { sync, stage: StageModel::Done, action: Action::Finish }),
    }
}

/// The next peer in turn is asked for the headers that the search wants. When there is none left,
/// the search stays queued.
pub open spec fn asks_for_search<R>(
    sync: SyncModel<R>,
    dispatcher: DispatcherModel,
    start: u64,
    out: Outcome<R>,
) -> bool {
    ||| exists|i: int| #[trigger]
        dispatcher.offers(i) && out == (Outcome {
            sync: sync.with_state(SyncState::Idle),
            stage: StageModel::SearchAsks(
                dispatcher.moved_to(i + 1),
                dispatcher.peer_ids[i],
                start,
            ),
            action: Action::Request(dispatcher.peer_ids[i], ancestor_request(start)),
        })
    ||| dispatcher.exhausted() && out == (Outcome {
        sync: sync.with_state(SyncState::AncestorSearch(AncestorSearch::Queued(start))),
        stage: StageModel::Done,
        action: Action::Finish,
    })
}

/// The next peer in turn is asked for what the round wants. When there is none left, the round is
/// told so.
pub open spec fn asks_for_round<R>(
    sync: SyncModel<R>,
    dispatcher: DispatcherModel,
    req: HeadersRequest,
    out: Outcome<R>,
) -> bool {
    ||| exists|i: int| #[trigger]
        dispatcher.offers(i) && out == (Outcome {
            sync,
            stage: StageModel::RoundAsks(dispatcher.moved_to(i + 1), dispatcher.peer_ids[i], req),
            action: Action::Request(dispatcher.peer_ids[i], req),
        })
    ||| dispatcher.exhausted() && out == (Outcome {
        sync,
        stage: StageModel::Requests(dispatcher.moved_to(0)),
        action: Action::Reply(None),
    })
}

/// A peer is sought for what the round wants, in a new order.
pub open spec fn seeks_for_round<R>(
    sync: SyncModel<R>,
    dispatcher: DispatcherModel,
    req: HeadersRequest,
    out: Outcome<R>,
) -> bool {
    exists|shuffled: DispatcherModel| #[trigger]
        dispatcher.reordered(shuffled) && asks_for_round(sync, shuffled, req, out)
}

/// One step of maintenance: what it comes to when the awaited event came in.
pub open spec fn steps<R>(
    sync: SyncModel<R>,
    run: MaintenanceModel,
    event: Event<R>,
    out: Outcome<R>,
) -> bool {
    let chain_info = run.chain_info;
    match (run.stage, event) {
        (StageModel::CheckQueue, Event::QueueChecked(full)) => match sync.state {
            SyncState::Rounds(round) if !full => out == (Outcome {
                sync: sync.with_state(SyncState::Idle),
                stage: StageModel::Drain,
                action: Action::DrainRound(round, DRAIN_AMOUNT),
            }),
            _ => transitions(sync, chain_info, out),
        },
        (StageModel::Drain, Event::Drained(round, headers)) => {
            let restored = sync.with_state(SyncState::Rounds(round));
            if headers@.len() == 0 {
                transitions(restored, chain_info, out)
            } else {
                imports(restored, headers@, out)
            }
        },
        (StageModel::Import(_, headers), Event::HeaderQueued) => if headers.len() == 0 {
            out == (Outcome { sync, stage: StageModel::CheckQueue, action: Action::CheckQueue })
        } else {
            imports(sync, headers, out)
        },
        (StageModel::Import(supplier, _), Event::HeaderRejected) => out == (Outcome {
            sync,
            stage: StageModel::PunishImport,
            action: Action::DisablePeer(supplier),
        }),
        (StageModel::PunishImport, Event::PeersDisabled) => if sync.best_seen is Some {
            out == (Outcome { sync, stage: StageModel::ResetImport, action: Action::FlushQueue })
        } else {
            transitions(sync.with_state(SyncState::Idle), chain_info, out)
        },
        (StageModel::ResetImport, Event::QueueFlushed(best)) => transitions(
            sync.with_state(SyncState::AncestorSearch(search_from(best as int))),
            chain_info,
            out,
        ),
        (StageModel::Punish, Event::PeersDisabled) => resets(sync, chain_info, out),
        (StageModel::Reset, Event::QueueFlushed(best)) => dispatches(
            sync.with_state(SyncState::AncestorSearch(search_from(best as int))),
            chain_info,
            out,
        ),
        (StageModel::BeginRound, Event::RoundBegun(round)) => dispatches(
            sync.with_state(SyncState::Rounds(round)),
            chain_info,
            out,
        ),
        (StageModel::Requests(dispatcher), Event::RoundRequest(req)) => seeks_for_round(
            sync,
            dispatcher,
            req,
            out,
        ),
        (StageModel::Requests(_), Event::RoundDispatched(round)) => out == (Outcome {
            sync: sync.with_state(SyncState::Rounds(round)),
            stage: StageModel::Done,
            action: Action::Finish,
        }),
        (StageModel::RoundAsks(dispatcher, peer, req), Event::Requested(result)) => match result {
            Ok(id) => out == (Outcome {
                sync: sync.awaiting(id.0),
                stage: StageModel::Requests(dispatcher.taken_by(peer)),
                action: Action::Reply(Some(id)),
            }),
            Err(_) => asks_for_round(sync, dispatcher, req, out),
        },
        (StageModel::SearchAsks(dispatcher, _, start), Event::Requested(result)) => match result {
            Ok(id) => out == (Outcome {
                sync: sync.awaiting(id.0).with_state(
                    SyncState::AncestorSearch(
                        AncestorSearch::Awaiting(id, start, ancestor_request(start)),
                    ),
                ),
                stage: StageModel::Done,
                action: Action::Finish,
            }),
            Err(_) => asks_for_search(sync, dispatcher, start, out),
        },
        _ => false,
    }
}

impl Maintenance {
    /// Begins maintenance, given what is known of our chain.
    pub fn begin<R>(chain_info: BlockChainInfo) -> (res: (Self, Action<R>))
        ensures
            res.0@ == (MaintenanceModel { chain_info, stage: StageModel::CheckQueue }),
            res.1 == Action::<R>::CheckQueue,
    {
        (Maintenance { chain_info, stage: Stage::CheckQueue }, Action::CheckQueue)
    }

    /// Whether maintenance waits for an event of this kind.
    pub fn expects<R>(&self, event: &Event<R>) -> (res: bool)
        ensures
            res == awaits(self@.stage, *event),
    {
        match (&self.stage, event) {
            (Stage::CheckQueue, Event::QueueChecked(_)) => true,
            (Stage::Drain, Event::Drained(_, _)) => true,
            (Stage::Import(_, _), Event::HeaderQueued) => true,
            (Stage::Import(_, _), Event::HeaderRejected) => true,
            (Stage::PunishImport, Event::PeersDisabled) => true,
            (Stage::ResetImport, Event::QueueFlushed(_)) => true,
            (Stage::Punish, Event::PeersDisabled) => true,
            (Stage::Reset, Event::QueueFlushed(_)) => true,
            (Stage::BeginRound, Event::RoundBegun(_)) => true,
            (Stage::Requests(_), Event::RoundRequest(_)) => true,
            (Stage::Requests(_), Event::RoundDispatched(_)) => true,
            (Stage::RoundAsks(_, _, _), Event::Requested(_)) => true,
            (Stage::SearchAsks(_, _, _), Event::Requested(_)) => true,
            _ => false,
        }
    }
}

} // verus!
