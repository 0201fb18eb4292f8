//! The search for a common ancestor of our best chain and the network's.
use vstd::prelude::*;
use crate::primitives::{H256, ReqId};

verus! {

/// How many headers one request of the search asks for at most.
pub const BATCH_SIZE: u64 = 64;

/// A block, named by its hash or by its number.
#[derive(Debug, Clone, Copy, PartialEq, Eq, Structural)]
pub enum HashOrNumber {
    Hash(H256),
    Number(u64),
}

/// A request for a run of headers.
#[derive(Debug, Clone, Copy, PartialEq, Eq, Structural)]
pub struct HeadersRequest {
    /// The first block of the run.
    pub start: HashOrNumber,
    /// How many headers to send at most.
    pub max: u64,
    /// How many blocks to leave out between two headers.
    pub skip: u64,
    /// Whether the run goes towards the genesis block.
    pub reverse: bool,
}

/// A header of a response that was found to answer its request, and whether our chain holds it.
#[derive(Debug, Clone, Copy, PartialEq, Eq, Structural)]
pub struct ProbedHeader {
    pub number: u64,
    pub hash: H256,
    pub known: bool,
}

/// Marks a response that does not answer its request.
#[derive(Debug, Clone, Copy, PartialEq, Eq, Structural)]
pub struct BadResponse;

/// What verifying a response brought, its headers as a sequence.
pub open spec fn probes_of(verified: Result<Vec<ProbedHeader>, BadResponse>) -> Result<
    Seq<ProbedHeader>,
    BadResponse,
> {
    match verified {
        Ok(probes) => Ok(probes@),
        Err(e) => Err(e),
    }
}

/// Search for a common ancestor with the best chain.
#[derive(Debug, Clone, Copy, PartialEq, Eq, Structural)]
pub enum AncestorSearch {
    /// Queued to search for blocks starting from here.
    Queued(u64),
    /// Awaiting response for this request.
    Awaiting(ReqId, u64, HeadersRequest),
    /// Prehistoric block found.
    Prehistoric,
    /// Common block found.
    FoundCommon(u64, H256),
    /// Common ancestor is the genesis.
    Genesis,
}

/// The search from a given block: that block and those below it, or the genesis block alone.
pub open spec fn search_from(number: int) -> AncestorSearch {
    if number == 0 {
        AncestorSearch::Genesis
    } else {
        AncestorSearch::Queued(number as u64)
    }
}

/// The request that a search queued at `start` sends: headers downwards from `start`, a full batch
/// unless fewer blocks lie above the genesis block.
pub open spec fn ancestor_request(start: u64) -> HeadersRequest {
    HeadersRequest {
        start: HashOrNumber::Number(start),
        max: if start < BATCH_SIZE {
            start
        } else {
            BATCH_SIZE
        },
        skip: 0,
        reverse: true,
    }
}

impl ProbedHeader {
    /// Whether this header ends the search: our chain holds it, or it lies before the first block
    /// that our chain holds.
    pub open spec fn settles(self, first_num: u64) -> bool {
        self.known || self.number < first_num
    }

    /// What the search ends with at this header.
    pub open spec fn verdict(self) -> AncestorSearch {
        if self.known {
            AncestorSearch::FoundCommon(self.number, self.hash)
        } else {
            AncestorSearch::Prehistoric
        }
    }

    /// Whether this header ends the search, given the number of the first block that our chain holds.
    pub fn ends_search(&self, first_num: u64) -> (res: bool)
        ensures
            res == self.settles(first_num),
            res <==> self.known || self.number < first_num,
    {
        self.known || self.number < first_num
    }
}

/// Whether `i` is the position of the first header that ends the search.
pub open spec fn first_settling(probes: Seq<ProbedHeader>, first_num: u64, i: int) -> bool {
    &&& 0 <= i < probes.len()
    &&& probes[i].settles(first_num)
    &&& forall|j: int| 0 <= j < i ==> !(#[trigger] probes[j]).settles(first_num)
}

/// Whether one of the headers ends the search.
pub open spec fn settled(probes: Seq<ProbedHeader>, first_num: u64) -> bool {
    exists|i: int| first_settling(probes, first_num, i)
}

/// Where a search that asked for headers from `start` downwards stands once they came: decided by
/// the first header that ends it, or going on below the last one.
pub open spec fn probe_outcome(start: u64, probes: Seq<ProbedHeader>, first_num: u64) -> AncestorSearch {
    if settled(probes, first_num) {
        probes[choose|i: int| first_settling(probes, first_num, i)].verdict()
    } else {
        search_from(start - probes.len())
    }
}

/// There is at most one first header that ends the search, so it decides the outcome.
pub proof fn lemma_first_settling_decides(
    start: u64,
    probes: Seq<ProbedHeader>,
    first_num: u64,
    i: int,
)
    requires
        first_settling(probes, first_num, i),
    ensures
        probe_outcome(start, probes, first_num) == probes[i].verdict(),
{
    let k = choose|k: int| first_settling(probes, first_num, k);
    assert(first_settling(probes, first_num, k));
    if k < i {
        assert(!probes[k].settles(first_num));
    } else if i < k {
        assert(!probes[i].settles(first_num));
    }
}

impl AncestorSearch {
    /// Searches queue only above the genesis block, and await only what they asked for.
    pub open spec fn wf(self) -> bool {
        match self {
            AncestorSearch::Queued(start) => start > 0,
            AncestorSearch::Awaiting(_, start, req) => start > 0 && req == ancestor_request(start),
            _ => true,
        }
    }

    /// The state after a response to `req_id`, given what verifying it brought.
    pub open spec fn responded(
        self,
        req_id: ReqId,
        verified: Result<Seq<ProbedHeader>, BadResponse>,
        first_num: u64,
    ) -> AncestorSearch {
        match self {
            AncestorSearch::Awaiting(id, start, _) if id == req_id => match verified {
                Ok(probes) => probe_outcome(start, probes, first_num),
                Err(_) => AncestorSearch::Queued(start),
            },
            _ => self,
        }
    }

    /// The request that a response to `req_id` has to answer, if it is the awaited one.
    pub open spec fn awaited(self, req_id: ReqId) -> Option<HeadersRequest> {
        match self {
            AncestorSearch::Awaiting(id, _, req) if id == req_id => Some(req),
            _ => None,
        }
    }

    /// Whether a response to `req_id` may hold this many headers: if it is the awaited one, no more
    /// than there are blocks from where the search stands down to the genesis block.
    pub open spec fn admits(self, req_id: ReqId, count: nat) -> bool {
        match self {
            AncestorSearch::Awaiting(id, start, _) if id == req_id => count <= start,
            _ => true,
        }
    }

    /// The state after the requests `req_ids` were given up.
    pub open spec fn abandoned(self, req_ids: Seq<ReqId>) -> AncestorSearch {
        match self {
            AncestorSearch::Awaiting(id, start, _) if req_ids.contains(id) =>
                AncestorSearch::Queued(start),
            _ => self,
        }
    }

    /// The request that the search wants to send.
    pub open spec fn wanted(self) -> Option<HeadersRequest> {
        match self {
            AncestorSearch::Queued(start) => Some(ancestor_request(start)),
            _ => None,
        }
    }

    /// The state after the wanted request was sent under an identifier, or found no taker.
    pub open spec fn dispatched(self, reply: Option<ReqId>) -> AncestorSearch {
        match (self, reply) {
            (AncestorSearch::Queued(start), Some(id)) =>
                AncestorSearch::Awaiting(id, start, ancestor_request(start)),
            _ => self,
        }
    }

    /// Starts a search at our best block.
    pub fn begin(best_num: u64) -> (res: Self)
        ensures
            res == search_from(best_num as int),
            res.wf(),
    {
        match best_num {
            0 => AncestorSearch::Genesis,
            _ => AncestorSearch::Queued(best_num),
        }
    }

    /// The request against which a response to `req_id` has to be verified, if it is the response
    /// that the search awaits.
    pub fn awaited_request(&self, req_id: &ReqId) -> (res: Option<HeadersRequest>)
        ensures
            res == self.awaited(*req_id),
    {
        match self {
            AncestorSearch::Awaiting(id, _, req) => if *id == *req_id {
                Some(*req)
            } else {
                None
            },
            _ => None,
        }
    }

    /// Processes a response to the request `req_id`. `verified` holds its headers if they answer
    /// the awaited request. Tells in addition whether the responder is to be punished.
    pub fn process_response(
        self,
        req_id: &ReqId,
        verified: Result<Vec<ProbedHeader>, BadResponse>,
        first_block_number: Option<u64>,
    ) -> (res: (AncestorSearch, bool))
        requires
            verified matches Ok(probes) ==> self.admits(*req_id, probes.len() as nat) || settled(
                probes@,
                first_block_number.unwrap_or(0),
            ),
        ensures
            res.0 == self.responded(
                *req_id,
                probes_of(verified),
                first_block_number.unwrap_or(0),
            ),
            res.1 <==> self.awaited(*req_id) is Some && verified is Err,
            self.wf() ==> res.0.wf(),
    {
        let first_num: u64 = match first_block_number {
            Some(number) => number,
            None => 0,
        };
        match self {
            AncestorSearch::Awaiting(id, start, req) => {
                if id == *req_id {
                    match verified {
                        Ok(headers) => {
                            let mut i: usize = 0;
                            while i < headers.len()
                                invariant
                                    i <= headers.len(),
                                    self == AncestorSearch::Awaiting(id, start, req),
                                    id == *req_id,
                                    verified == Ok::<Vec<ProbedHeader>, BadResponse>(headers),
                                    first_num == first_block_number.unwrap_or(0),
                                    forall|j: int|
                                        0 <= j < i ==> !(#[trigger] headers@[j]).settles(first_num),
                                decreases headers.len() - i,
                            {
                                let header = headers[i];
                                if header.ends_search(first_num) {
                                    proof {
                                        lemma_first_settling_decides(
                                            start,
                                            headers@,
                                            first_num,
                                            i as int,
                                        );
                                    }
                                    if header.known {
                                        return (
                                            AncestorSearch::FoundCommon(header.number, header.hash),
                                            false,
                                        );
                                    }
                                    return (AncestorSearch::Prehistoric, false);
                                }
                                i += 1;
                            }
                            assert(!settled(headers@, first_num));
                            (AncestorSearch::begin(start - headers.len() as u64), false)
                        },
                        Err(_) => (AncestorSearch::Queued(start), true),
                    }
                } else {
                    (AncestorSearch::Awaiting(id, start, req), false)
                }
            },
            other => (other, false),
        }
    }

    /// Queues the search again if the request that it awaits is among those given up.
    pub fn requests_abandoned(self, req_ids: &[ReqId]) -> (res: AncestorSearch)
        ensures
            res == self.abandoned(req_ids@),
            self.wf() ==> res.wf(),
    {
        match self {
            AncestorSearch::Awaiting(id, start, req) => {
                let mut i: usize = 0;
                while i < req_ids.len()
                    invariant
                        i <= req_ids.len(),
                        self == AncestorSearch::Awaiting(id, start, req),
                        forall|j: int| 0 <= j < i ==> (#[trigger] req_ids@[j]) != id,
                    decreases req_ids.len() - i,
                {
                    if req_ids[i] == id {
                        assert(req_ids@[i as int] == id);
                        return AncestorSearch::Queued(start);
                    }
                    i += 1;
                }
                AncestorSearch::Awaiting(id, start, req)
            },
            other => other,
        }
    }

    /// The request that a queued search wants to send.
    pub fn wanted_request(&self) -> (res: Option<HeadersRequest>)
        ensures
            res == self.wanted(),
            self matches AncestorSearch::Queued(start) ==> res is Some && res->0.start
                == HashOrNumber::Number(*start) && res->0.skip == 0 && res->0.reverse,
    {
        match self {
            AncestorSearch::Queued(start) => {
                let batch_size: u64 = if *start < BATCH_SIZE {
                    *start
                } else {
                    BATCH_SIZE
                };
                Some(
                    HeadersRequest {
                        start: HashOrNumber::Number(*start),
                        max: batch_size,
                        skip: 0,
                        reverse: true,
                    },
                )
            },
            _ => None,
        }
    }

    /// Takes note of what came of the request that a queued search wanted to send: the identifier
    /// under which a peer took it, or that no peer did.
    pub fn dispatch_request(self, reply: Option<ReqId>) -> (res: AncestorSearch)
        ensures
            res == self.dispatched(reply),
            self.wf() ==> res.wf(),
    {
        match self {
            AncestorSearch::Queued(start) => match (self.wanted_request(), reply) {
                (Some(req), Some(req_id)) => AncestorSearch::Awaiting(req_id, start, req),
                _ => AncestorSearch::Queued(start),
            },
            other => other,
        }
    }
}

} // verus!
