//! The states of synchronization.
use std::collections::VecDeque;
use vstd::prelude::*;
use crate::ancestor::AncestorSearch;
use crate::chain::ChainInfo;
use crate::peers::Peer;
use crate::primitives::{H256, PeerId, U256};

verus! {

/// An encoded block header. It is carried from the network to the import queue and not looked into.
#[derive(Debug)]
pub struct Header {
    pub rlp: Vec<u8>,
}

/// A block, by its number and hash.
pub type BlockDescriptor = (u64, H256);

/// Why a sync round was aborted.
#[derive(Debug)]
pub enum AbortReason {
    /// Bad sparse header chain, sent by these peers.
    BadScaffold(Vec<PeerId>),
    /// No incoming data.
    NoResponses,
    /// Sync rounds completed.
    TargetReached,
}

/// A sync round. What a running one holds is up to the code that drives it.
#[derive(Debug)]
pub enum SyncRound<R> {
    /// The round goes on.
    Running(R),
    /// The round was aborted, with headers that are still to be imported, each with the peer that
    /// supplied it.
    Abort(AbortReason, VecDeque<(PeerId, Header)>),
}

/// Synchronization state machine.
#[derive(Debug)]
pub enum SyncState<R> {
    /// Idle (waiting for peers) or at chain head.
    Idle,
    /// Searching for common ancestor with best chain.
    /// The import queue is cleared when this phase begins.
    AncestorSearch(AncestorSearch),
    /// Doing sync rounds.
    Rounds(SyncRound<R>),
}

/// What is known of our own chain at one moment.
#[derive(Debug, Clone, Copy, PartialEq, Eq, Structural)]
pub struct BlockChainInfo {
    /// The total difficulty of our chain, blocks in the import queue counted in.
    pub pending_total_difficulty: U256,
    /// The hash of the genesis block.
    pub genesis_hash: H256,
    /// The number of our best block.
    pub best_block_number: u64,
    /// The number of the first block that our chain holds, if it does not go back to the genesis.
    pub first_block_number: Option<u64>,
}

/// What is known of the import queue at one moment.
#[derive(Debug, Clone, Copy, PartialEq, Eq, Structural)]
pub struct QueueInfo {
    /// Whether the queue takes no more headers.
    pub full: bool,
    /// How many headers wait for verification.
    pub unverified_queue_size: usize,
}

/// What a light synchronization manager knows.
#[verifier::ext_equal]
pub ghost struct SyncModel<R> {
    /// Our best block when synchronization was set up.
    pub start_block: u64,
    /// Best seen block on the network.
    pub best_seen: Option<ChainInfo>,
    /// Peers which are relevant to synchronization.
    pub peers: Map<PeerId, Peer>,
    /// Identifiers of the requests whose responses are still to come.
    pub pending: Set<usize>,
    /// Where synchronization stands.
    pub state: SyncState<R>,
}

impl<R> SyncModel<R> {
    /// What is known at the outset.
    pub open spec fn initial(best_block_number: u64) -> SyncModel<R> {
        SyncModel {
            start_block: best_block_number,
            best_seen: None,
            peers: Map::empty(),
            pending: Set::empty(),
            state: SyncState::Idle,
        }
    }

    /// The same with another state.
    pub open spec fn with_state(self, state: SyncState<R>) -> SyncModel<R> {
        SyncModel { state, ..self }
    }

    /// The same with one more request in flight.
    pub open spec fn awaiting(self, id: usize) -> SyncModel<R> {
        SyncModel { pending: self.pending.insert(id), ..self }
    }

    /// No peer advertises a chain heavier than the best seen, and a search is one that can run.
    pub open spec fn wf(self) -> bool {
        &&& forall|id: PeerId| #[trigger]
            self.peers.contains_key(id) ==> {
                &&& self.best_seen is Some
                &&& self.peers[id].status.head_td@ <= self.best_seen->0.head_td@
            }
        &&& self.state matches SyncState::AncestorSearch(search) ==> search.wf()
    }
}

} // verus!
