//! What the network reports, and what synchronization makes of it.
use vstd::prelude::*;
use crate::ancestor::HeadersRequest;
use crate::chain::{heavier, ChainInfo};
use crate::peers::{is_best_of, Peer};
use crate::primitives::{H256, PeerId, ReqId, U256};
use crate::state::{Header, SyncModel, SyncRound, SyncState};

verus! {

/// A peer's chain head at the time it connects.
#[derive(Debug, Clone, Copy, PartialEq, Eq, Structural)]
pub struct Status {
    pub head_td: U256,
    pub head_hash: H256,
    pub head_num: u64,
}

/// What a peer offers to serve.
#[derive(Debug, Clone, Copy, PartialEq, Eq, Structural)]
pub struct Capabilities {
    /// Whether it serves headers.
    pub serve_headers: bool,
}

/// A peer's announcement of a new chain head.
#[derive(Debug, Clone, Copy, PartialEq, Eq, Structural)]
pub struct Announcement {
    pub head_td: U256,
    pub head_hash: H256,
    pub head_num: u64,
}

/// A part of a response to a request.
#[derive(Debug)]
pub enum Response {
    /// Headers.
    Headers(Vec<Header>),
    /// Anything else.
    Other,
}

/// Whether synchronization has a use for a peer.
#[derive(Debug, Clone, Copy, PartialEq, Eq, Structural)]
pub enum PeerStatus {
    /// It has. Sync maintenance is due.
    Kept,
    /// It has none.
    Unkept,
}

/// What is to be done after a peer disconnected.
#[derive(Debug)]
pub enum Departure<R> {
    /// Nothing: the peer took no part in synchronization.
    Unknown,
    /// Sync maintenance.
    Maintain,
    /// Tell the round that its requests to the peer were abandoned and hand it back; then sync
    /// maintenance.
    AbandonRequests(SyncRound<R>),
}

/// What is to be done after an announcement.
#[derive(Debug, Clone, Copy, PartialEq, Eq, Structural)]
pub enum AnnouncementOutcome {
    /// Nothing: the peer takes no part in synchronization.
    Unknown,
    /// Disconnect the peer: it moved backwards.
    Disconnect,
    /// Sync maintenance.
    Maintain,
}

/// A response, as synchronization sees it.
#[derive(Debug, Clone, Copy)]
pub struct ResponseCtx<'a> {
    pub peer: PeerId,
    pub req_id: ReqId,
    pub data: &'a [Header],
}

/// What is to be done with a response before sync maintenance.
#[derive(Debug)]
pub enum Handling<R> {
    /// Nothing.
    Nothing,
    /// Verify that it answers the request of the ancestor search, and report the result.
    Verify(HeadersRequest),
    /// Let the round process it, and hand the round back.
    Process(SyncRound<R>),
}

/// What is to be done about a response.
#[derive(Debug)]
pub enum Reception<'a, R> {
    /// Nothing: it comes from a peer that takes no part in synchronization, or nobody waits for it.
    Ignored,
    /// Disable the responder if the response is of the wrong type, then handle the response, then
    /// sync maintenance.
    Taken { ctx: ResponseCtx<'a>, wrong_type: bool, handling: Handling<R> },
}

impl<'a> ResponseCtx<'a> {
    /// The peer that responded.
    pub fn responder(&self) -> (res: PeerId)
        ensures
            res == self.peer,
    {
        self.peer
    }

    /// The request that was responded to.
    pub fn req_id(&self) -> (res: &ReqId)
        ensures
            *res == self.req_id,
    {
        &self.req_id
    }

    /// The headers that came.
    pub fn data(&self) -> (res: &[Header])
        ensures
            res@ == self.data@,
    {
        self.data
    }
}

impl Status {
    /// The chain that the status advertises.
    pub open spec fn chain(self) -> ChainInfo {
        ChainInfo {
            head_td: self.head_td,
            head_hash: self.head_hash,
            head_num: self.head_num,
        }
    }
}

impl Announcement {
    /// The chain that the announcement advertises.
    pub open spec fn chain(self) -> ChainInfo {
        ChainInfo {
            head_td: self.head_td,
            head_hash: self.head_hash,
            head_num: self.head_num,
        }
    }
}

/// What is known once a peer of this chain takes part.
pub open spec fn connected<R>(sync: SyncModel<R>, peer: PeerId, info: ChainInfo) -> SyncModel<R> {
    SyncModel {
        best_seen: heavier(sync.best_seen, Some(info)),
        peers: sync.peers.insert(peer, Peer { status: info }),
        ..sync
    }
}

/// The identifiers of these requests.
pub open spec fn ids_of(requests: Seq<ReqId>) -> Set<usize> {
    Set::new(|id: usize| requests.contains(ReqId(id)))
}

/// One more request adds one identifier.
pub proof fn lemma_ids_of_push(requests: Seq<ReqId>, req: ReqId)
    ensures
        ids_of(requests.push(req)) == ids_of(requests).insert(req.0),
{
    let all = requests.push(req);
    assert forall|id: usize| #[trigger] ids_of(all).contains(id) == ids_of(requests).insert(
        req.0,
    ).contains(id) by {
        if requests.contains(ReqId(id)) {
            let i = choose|i: int| 0 <= i < requests.len() && requests[i] == ReqId(id);
            assert(all[i] == ReqId(id));
        }
        if id == req.0 {
            assert(all[requests.len() as int] == ReqId(id));
        }
    }
    assert(ids_of(all) =~= ids_of(requests).insert(req.0));
}

/// A peer leaves and its unfulfilled requests are given up. If it advertised the best chain seen,
/// the best of those that stay takes its place; with nobody left synchronization rests.
pub open spec fn departs<R>(
    sync: SyncModel<R>,
    peer: PeerId,
    unfulfilled: Seq<ReqId>,
    after: SyncModel<R>,
    outcome: Departure<R>,
) -> bool {
    if sync.peers.contains_key(peer) {
        &&& after.start_block == sync.start_block
        &&& after.peers == sync.peers.remove(peer)
        &&& after.pending == sync.pending.difference(ids_of(unfulfilled))
        &&& if sync.best_seen == Some(sync.peers[peer].status) {
            is_best_of(after.best_seen, after.peers)
        } else {
            after.best_seen == sync.best_seen
        }
        &&& match sync.state {
            SyncState::AncestorSearch(search) if after.best_seen is Some => {
                &&& after.state == SyncState::<R>::AncestorSearch(search.abandoned(unfulfilled))
                &&& outcome == Departure::<R>::Maintain
            },
            SyncState::Rounds(round) if after.best_seen is Some => {
                &&& after.state == SyncState::<R>::Idle
                &&& outcome == Departure::AbandonRequests(round)
            },
            _ => {
                &&& after.state == SyncState::<R>::Idle
                &&& outcome == Departure::<R>::Maintain
            },
        }
    } else {
        after == sync && outcome == Departure::<R>::Unknown
    }
}

/// What an announcement calls for: a peer must not move to a lighter chain.
pub open spec fn announcement_outcome<R>(
    sync: SyncModel<R>,
    peer: PeerId,
    info: ChainInfo,
) -> AnnouncementOutcome {
    if !sync.peers.contains_key(peer) {
        AnnouncementOutcome::Unknown
    } else if sync.peers[peer].status.head_td@ > info.head_td@ {
        AnnouncementOutcome::Disconnect
    } else {
        AnnouncementOutcome::Maintain
    }
}

/// What is known after an announcement.
pub open spec fn announced<R>(sync: SyncModel<R>, peer: PeerId, info: ChainInfo) -> SyncModel<R> {
    match announcement_outcome(sync, peer, info) {
        AnnouncementOutcome::Unknown => sync,
        AnnouncementOutcome::Disconnect => SyncModel { peers: sync.peers.remove(peer), ..sync },
        AnnouncementOutcome::Maintain => connected(sync, peer, info),
    }
}

/// Whether a response is one that synchronization waits for.
pub open spec fn accepts<R>(sync: SyncModel<R>, peer: PeerId, req_id: ReqId) -> bool {
    sync.peers.contains_key(peer) && sync.pending.contains(req_id.0)
}

/// The headers that a response brings: those of its first part, if that holds headers.
pub open spec fn headers_of(responses: Seq<Response>) -> Seq<Header> {
    if responses.len() > 0 {
        match responses[0] {
            Response::Headers(headers) => headers@,
            Response::Other => Seq::empty(),
        }
    } else {
        Seq::empty()
    }
}

/// Whether a response is of the wrong type: its first part is something else than headers.
pub open spec fn wrong_type_of(responses: Seq<Response>) -> bool {
    responses.len() > 0 && responses[0] is Other
}

/// What is to be done with a response to this request in this state.
pub open spec fn handling_of<R>(state: SyncState<R>, req_id: ReqId) -> Handling<R> {
    match state {
        SyncState::Idle => Handling::Nothing,
        SyncState::AncestorSearch(search) => match search.awaited(req_id) {
            Some(req) => Handling::Verify(req),
            None => Handling::Nothing,
        },
        SyncState::Rounds(round) => Handling::Process(round),
    }
}

/// What is known once a response was taken in: its request is not waited for any more, and a round
/// is on its way to process it.
pub open spec fn received<R>(sync: SyncModel<R>, req_id: ReqId) -> SyncModel<R> {
    SyncModel {
        pending: sync.pending.remove(req_id.0),
        state: match sync.state {
            SyncState::Rounds(_) => SyncState::Idle,
            other => other,
        },
        ..sync
    }
}

} // verus!
