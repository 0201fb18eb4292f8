//! What holds of synchronization as a whole.
use vstd::prelude::*;
use crate::ancestor::{
    first_settling, lemma_first_settling_decides, probe_outcome, probes_of, search_from, settled,
    AncestorSearch, BadResponse, HashOrNumber, HeadersRequest, ProbedHeader, BATCH_SIZE,
};
use crate::chain::ChainInfo;
use crate::events::{
    accepts, announced, announcement_outcome, connected, departs, handling_of, headers_of, received,
    wrong_type_of, Announcement, AnnouncementOutcome, Departure, Handling, Response, Status,
};
use crate::info::highest_seen;
use crate::peers::is_best_of;
use crate::primitives::{PeerId, ReqId};
use crate::state::{SyncModel, SyncState};

verus! {

// ---- the ancestor search

/// A search from the genesis block is over at once; any other is queued at the block from which it
/// starts.
pub proof fn law_search_starts_at_best_block(best_num: u64)
    ensures
        best_num == 0 <==> search_from(best_num as int) is Genesis,
        best_num > 0 <==> search_from(best_num as int) == AncestorSearch::Queued(best_num),
{
}

/// A queued search asks for the blocks from its place downwards, one after the other, as many as a
/// batch holds but none below the first block above the genesis. No other search asks.
pub proof fn law_search_asks_downwards(search: AncestorSearch, start: u64)
    ensures
        search == AncestorSearch::Queued(start) ==> {
            &&& search.wanted() is Some
            &&& search.wanted()->0.start == HashOrNumber::Number(start)
            &&& search.wanted()->0.skip == 0
            &&& search.wanted()->0.reverse
            &&& search.wanted()->0.max <= start
            &&& search.wanted()->0.max <= BATCH_SIZE
            &&& search.wanted()->0.max == start || search.wanted()->0.max == BATCH_SIZE
        },
        !(search is Queued) ==> search.wanted() is None,
{
}

/// Sending moves a queued search on to await exactly what it asked for, and only sending does.
pub proof fn law_only_sending_moves_a_queued_search(
    search: AncestorSearch,
    start: u64,
    req_id: ReqId,
)
    ensures
        search.dispatched(None) == search,
        !(search is Queued) ==> search.dispatched(Some(req_id)) == search,
        search == AncestorSearch::Queued(start) ==> {
            &&& search.dispatched(Some(req_id)) is Awaiting
            &&& search.dispatched(Some(req_id))->Awaiting_0 == req_id
            &&& search.dispatched(Some(req_id))->Awaiting_1 == start
            &&& Some(search.dispatched(Some(req_id))->Awaiting_2) == search.wanted()
        },
{
}

/// A search that awaits a response is open to that response and to no other, and checks it against
/// the request that it sent. It can process any response with headers no more than there are blocks
/// above the genesis.
pub proof fn law_search_awaits_one_response(
    search: AncestorSearch,
    id: ReqId,
    start: u64,
    req: HeadersRequest,
    other: ReqId,
    count: nat,
)
    requires
        search == AncestorSearch::Awaiting(id, start, req),
    ensures
        search.awaited(id) == Some(req),
        other != id ==> search.awaited(other) is None,
        count <= start ==> search.admits(id, count),
        other != id ==> search.admits(other, count),
{
}

/// A search that awaits nothing is open to no response.
pub proof fn law_other_searches_await_nothing(search: AncestorSearch, req_id: ReqId, count: nat)
    requires
        !(search is Awaiting),
    ensures
        search.awaited(req_id) is None,
        search.admits(req_id, count),
{
}

/// A search falls back to its place in the queue if its request was given up, and only then.
pub proof fn law_only_own_request_is_abandoned(
    search: AncestorSearch,
    id: ReqId,
    start: u64,
    req: HeadersRequest,
    req_ids: Seq<ReqId>,
)
    ensures
        search == AncestorSearch::Awaiting(id, start, req) ==> {
            &&& req_ids.contains(id) ==> search.abandoned(req_ids) == AncestorSearch::Queued(start)
            &&& !req_ids.contains(id) ==> search.abandoned(req_ids) == search
        },
        !(search is Awaiting) ==> search.abandoned(req_ids) == search,
{
}

/// All headers of a verified response are looked at, in the order in which they came.
pub proof fn law_all_verified_headers_count(verified: Result<Vec<ProbedHeader>, BadResponse>)
    ensures
        verified is Ok <==> probes_of(verified) is Ok,
        verified is Ok ==> probes_of(verified)->Ok_0 == verified->Ok_0@,
{
}

/// The first header that our chain holds, or that lies before its first block, ends the search: with
/// that header as the common block in the one case, as prehistoric in the other.
pub proof fn law_first_known_or_prehistoric_ends_search(
    id: ReqId,
    start: u64,
    req: HeadersRequest,
    probes: Seq<ProbedHeader>,
    first_num: u64,
    i: int,
)
    requires
        0 <= i < probes.len(),
        probes[i].known || probes[i].number < first_num,
        forall|j: int| 0 <= j < i ==> !(#[trigger] probes[j]).known && probes[j].number >= first_num,
    ensures
        ({
            let after = AncestorSearch::Awaiting(id, start, req).responded(
                id,
                Ok(probes),
                first_num,
            );
            &&& probes[i].known ==> after == AncestorSearch::FoundCommon(
                probes[i].number,
                probes[i].hash,
            )
            &&& !probes[i].known ==> after == AncestorSearch::Prehistoric
            &&& settled(probes, first_num)
        }),
{
    assert forall|j: int| 0 <= j < i implies !(#[trigger] probes[j]).settles(first_num) by {
        assert(!probes[j].known && probes[j].number >= first_num);
    }
    lemma_first_settling_decides(start, probes, first_num, i);
}

/// Headers that are unknown and not before our first block move the search down by their number, to
/// the genesis block if nothing is left in between.
pub proof fn law_unknown_headers_move_search_down(
    id: ReqId,
    start: u64,
    req: HeadersRequest,
    probes: Seq<ProbedHeader>,
    first_num: u64,
)
    requires
        probes.len() <= start,
        forall|j: int|
            0 <= j < probes.len() ==> !(#[trigger] probes[j]).known && probes[j].number >= first_num,
    ensures
        ({
            let after = AncestorSearch::Awaiting(id, start, req).responded(
                id,
                Ok(probes),
                first_num,
            );
            &&& probes.len() == start ==> after == AncestorSearch::Genesis
            &&& probes.len() < start ==> after is Queued && after->Queued_0 + probes.len() == start
        }),
{
    assert forall|j: int| 0 <= j < probes.len() implies !(#[trigger] probes[j]).settles(
        first_num,
    ) by {
        assert(!probes[j].known && probes[j].number >= first_num);
    }
}

/// A bad response to the awaited request puts the search back to where it was queued. Responses to
/// other requests, and responses that come while nothing is awaited, change nothing.
pub proof fn law_search_resumes_after_bad_response(
    search: AncestorSearch,
    id: ReqId,
    start: u64,
    req: HeadersRequest,
    other: ReqId,
    verified: Result<Seq<ProbedHeader>, BadResponse>,
    error: BadResponse,
    first_num: u64,
)
    ensures
        search == AncestorSearch::Awaiting(id, start, req) ==> {
            &&& search.responded(id, Err(error), first_num) == AncestorSearch::Queued(start)
            &&& other != id ==> search.responded(other, verified, first_num) == search
        },
        !(search is Awaiting) ==> search.responded(other, verified, first_num) == search,
{
}

/// A search asks for at least one and at most a batch of headers, and for no more than there are
/// blocks above the genesis block. Any answer that keeps to the request can be processed.
pub proof fn law_requests_are_bounded(search: AncestorSearch, req_id: ReqId, count: nat)
    requires
        search.wf(),
    ensures
        search.wanted() matches Some(req) ==> 1 <= req.max <= BATCH_SIZE,
        search.awaited(req_id) matches Some(req) ==> {
            &&& 1 <= req.max <= BATCH_SIZE
            &&& count <= req.max ==> search.admits(req_id, count)
        },
{
}

/// The search stays one that can run, whatever is reported to it.
pub proof fn law_search_stays_well_formed(
    search: AncestorSearch,
    best_num: u64,
    req_id: ReqId,
    verified: Result<Seq<ProbedHeader>, BadResponse>,
    first_num: u64,
    req_ids: Seq<ReqId>,
    reply: Option<ReqId>,
)
    requires
        search.wf(),
        verified matches Ok(probes) ==> search.admits(req_id, probes.len()) || settled(
            probes,
            first_num,
        ),
    ensures
        search_from(best_num as int).wf(),
        search.responded(req_id, verified, first_num).wf(),
        search.abandoned(req_ids).wf(),
        search.dispatched(reply).wf(),
{
}

/// A request that was sent is the one that its response is verified against.
pub proof fn law_sent_request_is_awaited(search: AncestorSearch, req_id: ReqId)
    requires
        search.wanted() is Some,
    ensures
        search.dispatched(Some(req_id)).awaited(req_id) == search.wanted(),
{
}

/// A request that was abandoned is sent again as it was.
pub proof fn law_abandoned_request_is_wanted_again(
    search: AncestorSearch,
    req_id: ReqId,
    req_ids: Seq<ReqId>,
)
    requires
        search.wf(),
        search.awaited(req_id) is Some,
        req_ids.contains(req_id),
    ensures
        search.abandoned(req_ids).wanted() == search.awaited(req_id),
{
}

/// After a bad response the same request is sent again.
pub proof fn law_bad_response_is_asked_again(
    search: AncestorSearch,
    req_id: ReqId,
    error: BadResponse,
    first_num: u64,
)
    requires
        search.wf(),
        search.awaited(req_id) is Some,
    ensures
        search.responded(req_id, Err(error), first_num).wanted() == search.awaited(req_id),
{
}

/// A response to another request leaves the search as it is.
pub proof fn law_stray_response_changes_nothing(
    search: AncestorSearch,
    req_id: ReqId,
    verified: Result<Seq<ProbedHeader>, BadResponse>,
    first_num: u64,
)
    requires
        search.awaited(req_id) is None,
    ensures
        search.responded(req_id, verified, first_num) == search,
{
}

/// As long as no header ends the search, it goes on strictly lower, down to the genesis block.
pub proof fn law_search_descends(
    start: u64,
    probes: Seq<ProbedHeader>,
    first_num: u64,
)
    requires
        0 < probes.len() <= start,
        forall|i: int|
            0 <= i < probes.len() ==> !(#[trigger] probes[i]).known && probes[i].number >= first_num,
    ensures
        match probe_outcome(start, probes, first_num) {
            AncestorSearch::Queued(below) => below == start - probes.len() && 0 < below < start,
            AncestorSearch::Genesis => start == probes.len(),
            _ => false,
        },
{
    assert forall|i: int| 0 <= i < probes.len() implies !(#[trigger] probes[i]).settles(
        first_num,
    ) by {
        assert(!probes[i].known && probes[i].number >= first_num);
    }
}

/// The common block that a search finds is the first of the headers that our chain holds, and no
/// header before it lies before our first block.
pub proof fn law_common_block_is_first_known(
    start: u64,
    probes: Seq<ProbedHeader>,
    first_num: u64,
    i: int,
)
    requires
        0 <= i < probes.len(),
        probes[i].known,
        forall|j: int| 0 <= j < i ==> !(#[trigger] probes[j]).known && probes[j].number >= first_num,
    ensures
        probe_outcome(start, probes, first_num) == AncestorSearch::FoundCommon(
            probes[i].number,
            probes[i].hash,
        ),
{
    assert forall|j: int| 0 <= j < i implies !(#[trigger] probes[j]).settles(first_num) by {
        assert(!probes[j].known && probes[j].number >= first_num);
    }
    lemma_first_settling_decides(start, probes, first_num, i);
}

/// A search that ends before our first block met a header from there, and held none before it.
pub proof fn law_prehistoric_is_before_first_block(
    start: u64,
    probes: Seq<ProbedHeader>,
    first_num: u64,
)
    requires
        probe_outcome(start, probes, first_num) is Prehistoric,
    ensures
        exists|i: int|
            0 <= i < probes.len() && (#[trigger] probes[i]).number < first_num && forall|j: int|
                0 <= j <= i ==> !(#[trigger] probes[j]).known,
{
    let i = choose|i: int| first_settling(probes, first_num, i);
    assert(first_settling(probes, first_num, i));
    assert(probes[i].number < first_num);
    assert forall|j: int| 0 <= j <= i implies !(#[trigger] probes[j]).known by {
        if j < i {
            assert(!probes[j].settles(first_num));
        }
    }
}

/// A chain that goes back to the genesis block has nothing before it: no response ends the search
/// there.
pub proof fn law_nothing_is_before_genesis(
    search: AncestorSearch,
    req_id: ReqId,
    verified: Result<Seq<ProbedHeader>, BadResponse>,
)
    requires
        !(search is Prehistoric),
    ensures
        !(search.responded(req_id, verified, 0) is Prehistoric),
{
    if let AncestorSearch::Awaiting(_, start, _) = search {
        if let Ok(probes) = verified {
            if probe_outcome(start, probes, 0) is Prehistoric {
                law_prehistoric_is_before_first_block(start, probes, 0);
            }
        }
    }
}

/// The headers that follow one that ends the search make no difference.
pub proof fn law_search_ends_at_first_settling(
    start: u64,
    probes: Seq<ProbedHeader>,
    first_num: u64,
    i: int,
)
    requires
        first_settling(probes, first_num, i),
    ensures
        probe_outcome(start, probes.take(i + 1), first_num) == probe_outcome(
            start,
            probes,
            first_num,
        ),
{
    let seen = probes.take(i + 1);
    assert forall|j: int| 0 <= j < i implies !(#[trigger] seen[j]).settles(first_num) by {
        assert(!probes[j].settles(first_num));
    }
    lemma_first_settling_decides(start, probes, first_num, i);
    lemma_first_settling_decides(start, seen, first_num, i);
}

// ---- network events

/// At the outset nothing is wrong.
pub proof fn law_initially_well_formed<R>(best_block_number: u64)
    ensures
        SyncModel::<R>::initial(best_block_number).wf(),
        is_best_of(
            SyncModel::<R>::initial(best_block_number).best_seen,
            SyncModel::<R>::initial(best_block_number).peers,
        ),
{
}

/// At the outset nobody is known, nothing is waited for and nothing is under way; our best block of
/// that time is remembered.
pub proof fn law_initially_nothing_is_known<R>(best_block_number: u64, peer: PeerId, id: usize)
    ensures
        ({
            let sync = SyncModel::<R>::initial(best_block_number);
            &&& sync.start_block == best_block_number
            &&& sync.best_seen is None
            &&& !sync.peers.contains_key(peer)
            &&& !sync.pending.contains(id)
            &&& sync.state is Idle
        }),
{
}

/// To move to another state, or to wait for one more response, leaves all else as it is.
pub proof fn law_state_and_pending_change_alone<R>(
    sync: SyncModel<R>,
    state: SyncState<R>,
    id: usize,
    other: usize,
)
    ensures
        sync.with_state(state).state == state,
        sync.with_state(state).start_block == sync.start_block,
        sync.with_state(state).best_seen == sync.best_seen,
        sync.with_state(state).peers == sync.peers,
        sync.with_state(state).pending == sync.pending,
        sync.awaiting(id).pending.contains(id),
        other != id ==> sync.awaiting(id).pending.contains(other) == sync.pending.contains(other),
        sync.awaiting(id).start_block == sync.start_block,
        sync.awaiting(id).best_seen == sync.best_seen,
        sync.awaiting(id).peers == sync.peers,
        sync.awaiting(id).state == sync.state,
{
}

/// What is in order: each peer has a chain no heavier than the best seen, and a search queues and
/// awaits only above the genesis block, with a request from the block where it stands.
pub proof fn law_in_order_means_best_is_heaviest<R>(sync: SyncModel<R>, peer: PeerId)
    requires
        sync.wf(),
    ensures
        sync.peers.contains_key(peer) ==> sync.best_seen is Some
            && sync.peers[peer].status.head_td@ <= sync.best_seen->0.head_td@,
        sync.state matches SyncState::AncestorSearch(AncestorSearch::Queued(start)) ==> start > 0,
        sync.state matches SyncState::AncestorSearch(AncestorSearch::Awaiting(_, start, req)) ==> {
            &&& start > 0
            &&& req.start == HashOrNumber::Number(start)
            &&& 1 <= req.max <= start
            &&& req.skip == 0
            &&& req.reverse
        },
{
}

/// A status and an announcement advertise the chain head that they hold.
pub proof fn law_heads_are_taken_as_advertised(status: Status, announcement: Announcement)
    ensures
        status.chain().head_td == status.head_td,
        status.chain().head_hash == status.head_hash,
        status.chain().head_num == status.head_num,
        announcement.chain().head_td == announcement.head_td,
        announcement.chain().head_hash == announcement.head_hash,
        announcement.chain().head_num == announcement.head_num,
{
}

/// A peer that connects is known by the chain that it advertises. That chain becomes the best seen
/// unless a strictly heavier one was seen. Nothing else changes.
pub proof fn law_connected_peer_is_known<R>(
    sync: SyncModel<R>,
    peer: PeerId,
    info: ChainInfo,
    other: PeerId,
)
    ensures
        ({
            let now = connected(sync, peer, info);
            &&& now.peers.contains_key(peer)
            &&& now.peers[peer].status == info
            &&& other != peer ==> now.peers.contains_key(other) == sync.peers.contains_key(other)
            &&& other != peer && sync.peers.contains_key(other) ==> now.peers[other]
                == sync.peers[other]
            &&& sync.best_seen is None || sync.best_seen->0.head_td@ <= info.head_td@
                ==> now.best_seen == Some(info)
            &&& sync.best_seen is Some && sync.best_seen->0.head_td@ > info.head_td@
                ==> now.best_seen == sync.best_seen
            &&& now.pending == sync.pending
            &&& now.start_block == sync.start_block
            &&& now.state == sync.state
        }),
{
}

/// An announcement disconnects a known peer exactly if it is of strictly less difficulty than what
/// the peer advertised before; the peer is then not known any more, and the best chain seen stays.
/// Otherwise the peer stays, known by the announced chain, which becomes the best seen unless a
/// strictly heavier one was seen. Announcements of peers that are not known change nothing, and none
/// touches other peers, pending requests or the state.
pub proof fn law_only_lighter_announcements_disconnect<R>(
    sync: SyncModel<R>,
    peer: PeerId,
    info: ChainInfo,
    other: PeerId,
)
    ensures
        ({
            let outcome = announcement_outcome(sync, peer, info);
            let now = announced(sync, peer, info);
            &&& !sync.peers.contains_key(peer) ==> {
                &&& outcome == AnnouncementOutcome::Unknown
                &&& now == sync
            }
            &&& sync.peers.contains_key(peer) && info.head_td@
                < sync.peers[peer].status.head_td@ ==> {
                &&& outcome == AnnouncementOutcome::Disconnect
                &&& !now.peers.contains_key(peer)
                &&& now.best_seen == sync.best_seen
            }
            &&& sync.peers.contains_key(peer) && info.head_td@
                >= sync.peers[peer].status.head_td@ ==> {
                &&& outcome == AnnouncementOutcome::Maintain
                &&& now.peers.contains_key(peer)
                &&& now.peers[peer].status == info
                &&& now.best_seen is Some
                &&& now.best_seen->0.head_td@ >= info.head_td@
                &&& sync.best_seen is Some && sync.best_seen->0.head_td@ > info.head_td@
                    ==> now.best_seen == sync.best_seen
                &&& sync.best_seen is None || sync.best_seen->0.head_td@ <= info.head_td@
                    ==> now.best_seen == Some(info)
            }
            &&& other != peer ==> now.peers.contains_key(other) == sync.peers.contains_key(other)
            &&& other != peer && sync.peers.contains_key(other) ==> now.peers[other]
                == sync.peers[other]
            &&& now.pending == sync.pending
            &&& now.start_block == sync.start_block
            &&& now.state == sync.state
        }),
{
}

/// A peer that leaves is not known any more; the others are. What it left unfulfilled is not waited
/// for any more; everything else is.
pub proof fn law_departure_forgets_peer_and_its_requests<R>(
    sync: SyncModel<R>,
    peer: PeerId,
    unfulfilled: Seq<ReqId>,
    after: SyncModel<R>,
    outcome: Departure<R>,
    other: PeerId,
    id: usize,
)
    requires
        departs(sync, peer, unfulfilled, after, outcome),
    ensures
        !sync.peers.contains_key(peer) <==> outcome is Unknown,
        !sync.peers.contains_key(peer) ==> after == sync,
        !after.peers.contains_key(peer),
        other != peer ==> after.peers.contains_key(other) == sync.peers.contains_key(other),
        other != peer && sync.peers.contains_key(other) ==> after.peers[other] == sync.peers[other],
        sync.peers.contains_key(peer) ==> (after.pending.contains(id) <==> sync.pending.contains(id)
            && !unfulfilled.contains(ReqId(id))),
        after.start_block == sync.start_block,
{
}

/// When a peer leaves that advertised the best chain seen, a heaviest chain of those that stay takes
/// its place, or none if nobody stays. Otherwise the best chain seen stays.
pub proof fn law_next_best_follows_best<R>(
    sync: SyncModel<R>,
    peer: PeerId,
    unfulfilled: Seq<ReqId>,
    after: SyncModel<R>,
    outcome: Departure<R>,
    other: PeerId,
)
    requires
        departs(sync, peer, unfulfilled, after, outcome),
        sync.peers.contains_key(peer),
    ensures
        sync.best_seen != Some(sync.peers[peer].status) ==> after.best_seen == sync.best_seen,
        sync.best_seen == Some(sync.peers[peer].status) ==> {
            &&& other != peer && sync.peers.contains_key(other) ==> after.best_seen is Some
                && sync.peers[other].status.head_td@ <= after.best_seen->0.head_td@
            &&& after.best_seen is Some ==> exists|id: PeerId|
                id != peer && #[trigger] sync.peers.contains_key(id) && sync.peers[id].status
                    == after.best_seen->0
        },
{
    if sync.best_seen == Some(sync.peers[peer].status) {
        if other != peer && sync.peers.contains_key(other) {
            assert(after.peers.contains_key(other));
            assert(after.peers.dom().contains(other));
        }
        if after.best_seen is Some {
            let id = choose|id: PeerId| #[trigger]
                after.peers.contains_key(id) && after.peers[id].status == after.best_seen->0;
            assert(id != peer && sync.peers.contains_key(id));
        }
    }
}

/// After a departure a search goes on, queued again if its request was left unfulfilled; a round is
/// handed out to learn of its requests. With no chain left to go for, everything stops.
pub proof fn law_departure_abandons_requests<R>(
    sync: SyncModel<R>,
    peer: PeerId,
    unfulfilled: Seq<ReqId>,
    after: SyncModel<R>,
    outcome: Departure<R>,
)
    requires
        departs(sync, peer, unfulfilled, after, outcome),
        sync.peers.contains_key(peer),
    ensures
        after.best_seen is None ==> after.state is Idle && outcome is Maintain,
        after.best_seen is Some ==> match sync.state {
            SyncState::Idle => after.state is Idle && outcome is Maintain,
            SyncState::Rounds(round) => after.state is Idle && outcome
                == Departure::AbandonRequests(round),
            SyncState::AncestorSearch(AncestorSearch::Awaiting(id, start, _)) => {
                &&& outcome is Maintain
                &&& unfulfilled.contains(id) ==> after.state == SyncState::<R>::AncestorSearch(
                    AncestorSearch::Queued(start),
                )
                &&& !unfulfilled.contains(id) ==> after.state == sync.state
            },
            SyncState::AncestorSearch(_) => after.state == sync.state && outcome is Maintain,
        },
{
}

/// A response is taken in exactly if its sender is known and its request is waited for. Then the
/// request is not waited for any more, and nothing else is forgotten.
pub proof fn law_expected_responses_are_taken<R>(
    sync: SyncModel<R>,
    peer: PeerId,
    req_id: ReqId,
    other: usize,
)
    ensures
        accepts(sync, peer, req_id) <==> sync.peers.contains_key(peer) && sync.pending.contains(
            req_id.0,
        ),
        received(sync, req_id).peers == sync.peers,
        received(sync, req_id).best_seen == sync.best_seen,
        received(sync, req_id).start_block == sync.start_block,
        !received(sync, req_id).pending.contains(req_id.0),
        other != req_id.0 ==> received(sync, req_id).pending.contains(other)
            == sync.pending.contains(other),
{
}

/// A response brings the headers of its first part, all of them and in their order. If the first part
/// is something else it is of the wrong type and brings none; nor does an empty response.
pub proof fn law_response_brings_headers_of_first_part(responses: Seq<Response>, i: int)
    ensures
        responses.len() > 0 && responses[0] is Headers ==> {
            &&& headers_of(responses) == responses[0]->Headers_0@
            &&& headers_of(responses).len() == responses[0]->Headers_0@.len()
            &&& headers_of(responses)[i] == responses[0]->Headers_0@[i]
            &&& !wrong_type_of(responses)
        },
        responses.len() > 0 && responses[0] is Other ==> headers_of(responses).len() == 0
            && wrong_type_of(responses),
        responses.len() == 0 ==> headers_of(responses).len() == 0 && !wrong_type_of(responses),
{
}

/// A round processes every response itself, and is handed out for that. A search has the response
/// that it awaits verified against its request; other responses have no use to it, nor has any
/// response while synchronization is idle. Only a round leaves its place.
pub proof fn law_responses_reach_search_or_round<R>(sync: SyncModel<R>, req_id: ReqId)
    ensures
        match sync.state {
            SyncState::Idle => {
                &&& handling_of(sync.state, req_id) is Nothing
                &&& received(sync, req_id).state is Idle
            },
            SyncState::Rounds(round) => {
                &&& handling_of(sync.state, req_id) == Handling::Process(round)
                &&& received(sync, req_id).state is Idle
            },
            SyncState::AncestorSearch(search) => {
                &&& received(sync, req_id).state == sync.state
                &&& match search {
                    AncestorSearch::Awaiting(id, _, req) => {
                        &&& id == req_id ==> handling_of(sync.state, req_id)
                            == Handling::<R>::Verify(req)
                        &&& id != req_id ==> handling_of(sync.state, req_id) is Nothing
                    },
                    _ => handling_of(sync.state, req_id) is Nothing,
                }
            },
        },
{
}

/// The highest block seen is the head of the best chain seen, if there is one.
pub proof fn law_highest_block_is_best_head(best_seen: Option<ChainInfo>)
    ensures
        highest_seen(best_seen) is Some <==> best_seen is Some,
        best_seen is Some ==> highest_seen(best_seen)->0 == best_seen->0.head_num,
{
}

/// No event lets a peer advertise a chain heavier than the best seen, nor spoils a search.
pub proof fn law_events_keep_well_formed<R>(
    sync: SyncModel<R>,
    peer: PeerId,
    info: ChainInfo,
    req_id: ReqId,
)
    requires
        sync.wf(),
    ensures
        connected(sync, peer, info).wf(),
        announced(sync, peer, info).wf(),
        received(sync, req_id).wf(),
{
}

/// A peer that leaves takes nothing with it that others advertise.
pub proof fn law_departure_keeps_well_formed<R>(
    sync: SyncModel<R>,
    peer: PeerId,
    unfulfilled: Seq<ReqId>,
    after: SyncModel<R>,
    outcome: Departure<R>,
)
    requires
        sync.wf(),
        departs(sync, peer, unfulfilled, after, outcome),
    ensures
        after.wf(),
{
}

/// A verified response keeps what is known in order.
pub proof fn law_verified_response_keeps_well_formed<R>(
    sync: SyncModel<R>,
    search: AncestorSearch,
    req_id: ReqId,
    verified: Result<Seq<ProbedHeader>, BadResponse>,
    first_num: u64,
)
    requires
        sync.wf(),
        sync.state == SyncState::<R>::AncestorSearch(search),
        verified matches Ok(probes) ==> search.admits(req_id, probes.len()) || settled(
            probes,
            first_num,
        ),
    ensures
        sync.with_state(
            SyncState::AncestorSearch(search.responded(req_id, verified, first_num)),
        ).wf(),
{
}

/// The best chain seen never gets lighter through connections and announcements, and it is at least
/// as heavy as what was just advertised.
pub proof fn law_best_seen_grows<R>(sync: SyncModel<R>, peer: PeerId, info: ChainInfo)
    ensures
        connected(sync, peer, info).best_seen matches Some(best) && best.head_td@ >= info.head_td@,
        sync.best_seen matches Some(before) ==> {
            &&& connected(sync, peer, info).best_seen->0.head_td@ >= before.head_td@
            &&& announced(sync, peer, info).best_seen matches Some(after) && after.head_td@
                >= before.head_td@
        },
{
}

/// The best chain seen is a heaviest one that a peer advertises, as long as peers that connect are
/// new and peers that announce do not move backwards.
pub proof fn law_best_seen_is_advertised<R>(
    sync: SyncModel<R>,
    peer: PeerId,
    info: ChainInfo,
    unfulfilled: Seq<ReqId>,
    after: SyncModel<R>,
    outcome: Departure<R>,
)
    requires
        is_best_of(sync.best_seen, sync.peers),
    ensures
        !sync.peers.contains_key(peer) ==> {
            let now = connected(sync, peer, info);
            is_best_of(now.best_seen, now.peers)
        },
        announcement_outcome(sync, peer, info) != AnnouncementOutcome::Disconnect ==> {
            let now = announced(sync, peer, info);
            is_best_of(now.best_seen, now.peers)
        },
        departs(sync, peer, unfulfilled, after, outcome) ==> is_best_of(
            after.best_seen,
            after.peers,
        ),
{
    lemma_best_after_advertisement(sync, peer, info);
    if departs(sync, peer, unfulfilled, after, outcome) && sync.peers.contains_key(peer)
        && sync.best_seen != Some(sync.peers[peer].status) {
        let id = choose|id: PeerId| #[trigger]
            sync.peers.contains_key(id) && sync.peers[id].status == sync.best_seen->0;
        assert(id != peer);
        assert(after.peers.contains_key(id));
    }
}

/// An advertisement of a new peer, or of one that does not move backwards, keeps the best chain seen
/// one that is advertised.
proof fn lemma_best_after_advertisement<R>(sync: SyncModel<R>, peer: PeerId, info: ChainInfo)
    requires
        is_best_of(sync.best_seen, sync.peers),
    ensures
        !sync.peers.contains_key(peer) || sync.peers[peer].status.head_td@ <= info.head_td@ ==> {
            let now = connected(sync, peer, info);
            is_best_of(now.best_seen, now.peers)
        },
{
    let now = connected(sync, peer, info);
    assert(now.peers.contains_key(peer));
    assert(now.peers[peer].status == info);
    if sync.best_seen is Some && sync.best_seen->0.head_td@ > info.head_td@ {
        let id = choose|id: PeerId| #[trigger]
            sync.peers.contains_key(id) && sync.peers[id].status == sync.best_seen->0;
        if id != peer {
            assert(now.peers.contains_key(id));
        }
    }
}

/// A peer that connects and leaves again without a request leaves the other peers and the pending
/// requests as they were.
pub proof fn law_connect_then_disconnect<R>(
    sync: SyncModel<R>,
    peer: PeerId,
    info: ChainInfo,
    after: SyncModel<R>,
    outcome: Departure<R>,
)
    requires
        !sync.peers.contains_key(peer),
        departs(connected(sync, peer, info), peer, Seq::empty(), after, outcome),
    ensures
        after.peers == sync.peers,
        after.pending == sync.pending,
        after.start_block == sync.start_block,
{
    assert(after.peers =~= sync.peers);
    assert(after.pending =~= sync.pending);
}

/// When nobody is left, synchronization rests.
pub proof fn law_last_departure_goes_idle<R>(
    sync: SyncModel<R>,
    peer: PeerId,
    unfulfilled: Seq<ReqId>,
    after: SyncModel<R>,
    outcome: Departure<R>,
)
    requires
        is_best_of(sync.best_seen, sync.peers),
        sync.peers.contains_key(peer),
        sync.peers.dom() == set![peer],
        departs(sync, peer, unfulfilled, after, outcome),
    ensures
        after.best_seen is None,
        after.state is Idle,
{
    assert(after.peers.dom() =~= Set::empty());
    let id = choose|id: PeerId| #[trigger]
        sync.peers.contains_key(id) && sync.peers[id].status == sync.best_seen->0;
    assert(sync.peers.dom().contains(id));
    assert(id == peer);
}

/// A response is taken at most once: afterwards nobody waits for it any more.
pub proof fn law_response_is_taken_once<R>(
    sync: SyncModel<R>,
    req_id: ReqId,
    other: PeerId,
)
    ensures
        !accepts(received(sync, req_id), other, req_id),
{
}

/// Taking in a response to one request leaves the others waited for.
pub proof fn law_other_responses_stay_expected<R>(
    sync: SyncModel<R>,
    req_id: ReqId,
    peer: PeerId,
    other: ReqId,
)
    requires
        other != req_id,
    ensures
        accepts(received(sync, req_id), peer, other) == accepts(sync, peer, other),
{
}

} // verus!
