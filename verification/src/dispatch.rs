//! The choice of peers to which requests go.
use rand::OsRng;
use std::collections::HashSet;
use vstd::prelude::*;
use crate::primitives::PeerId;
use crate::rng::shuffle_peers;

verus! {

broadcast use vstd::std_specs::hash::group_hash_axioms;

/// Naive request dispatcher: gives a request to any peer which says it will give us responses, but
/// only one request per peer.
pub struct Dispatcher {
    peer_ids: Vec<PeerId>,
    requested_from: HashSet<PeerId>,
    next: usize,
}

/// What a dispatcher knows.
#[verifier::ext_equal]
pub ghost struct DispatcherModel {
    /// The peers to choose from, in the order in which they are asked.
    pub peer_ids: Seq<PeerId>,
    /// The peers that took a request.
    pub requested_from: Set<PeerId>,
    /// How many peers were passed over or asked for the request under way.
    pub next: nat,
}

impl DispatcherModel {
    /// A dispatcher that has not sent anything.
    pub open spec fn fresh(peer_ids: Seq<PeerId>) -> DispatcherModel {
        DispatcherModel { peer_ids, requested_from: Set::empty(), next: 0 }
    }

    /// Whether `i` is the position of the peer to ask next: the first not yet come to that took no
    /// request.
    pub open spec fn offers(self, i: int) -> bool {
        &&& self.next <= i < self.peer_ids.len()
        &&& !self.requested_from.contains(self.peer_ids[i])
        &&& forall|j: int|
            self.next <= j < i ==> self.requested_from.contains(#[trigger] self.peer_ids[j])
    }

    /// Whether there is no peer left to ask.
    pub open spec fn exhausted(self) -> bool {
        forall|j: int|
            self.next <= j < self.peer_ids.len() ==> self.requested_from.contains(
                #[trigger] self.peer_ids[j],
            )
    }

    /// The dispatcher after it went on to position `next`.
    pub open spec fn moved_to(self, next: int) -> DispatcherModel {
        DispatcherModel { next: next as nat, ..self }
    }

    /// The dispatcher after a peer took a request.
    pub open spec fn taken_by(self, peer: PeerId) -> DispatcherModel {
        DispatcherModel { requested_from: self.requested_from.insert(peer), ..self }
    }

    /// Whether `other` is this dispatcher about to ask for another request: the same peers in some
    /// order, none of them come to.
    pub open spec fn reordered(self, other: DispatcherModel) -> bool {
        &&& other.peer_ids.to_multiset() == self.peer_ids.to_multiset()
        &&& other.requested_from == self.requested_from
        &&& other.next == 0
    }
}

impl View for Dispatcher {
    type V = DispatcherModel;

    closed spec fn view(&self) -> DispatcherModel {
        DispatcherModel {
            peer_ids: self.peer_ids@,
            requested_from: self.requested_from@,
            next: self.next as nat,
        }
    }
}

impl Dispatcher {
    /// A dispatcher among the given peers.
    pub fn new(peer_ids: Vec<PeerId>) -> (res: Self)
        ensures
            res@ == DispatcherModel::fresh(peer_ids@),
    {
        Dispatcher { peer_ids, requested_from: HashSet::new(), next: 0 }
    }

    /// Sets out to find a peer for a request: the peers are asked in a random order.
    pub fn shuffle(&mut self, rng: &mut OsRng)
        ensures
            old(self)@.reordered(final(self)@),
    {
        shuffle_peers(rng, &mut self.peer_ids);
        self.next = 0;
    }

    /// The next peer to ask for the request under way, if there is one left.
    pub fn next_peer(&mut self) -> (res: Option<PeerId>)
        ensures
            match res {
                Some(peer) => exists|i: int| #[trigger]
                    old(self)@.offers(i) && peer == old(self)@.peer_ids[i] && final(self)@
                        == old(self)@.moved_to(i + 1),
                None => old(self)@.exhausted() && final(self)@ == old(self)@.moved_to(0),
            },
            res matches Some(peer) ==> old(self)@.peer_ids.contains(peer)
                && !old(self)@.requested_from.contains(peer),
            res is None ==> forall|j: int|
                old(self)@.next <= j < old(self)@.peer_ids.len()
                    ==> old(self)@.requested_from.contains(#[trigger] old(self)@.peer_ids[j]),
    {
        while self.next < self.peer_ids.len()
            invariant
                old(self)@.next <= self.next,
                self.peer_ids == old(self).peer_ids,
                self.requested_from == old(self).requested_from,
                forall|j: int|
                    old(self)@.next <= j < self.next ==> self.requested_from@.contains(
                        #[trigger] self.peer_ids@[j],
                    ),
            decreases self.peer_ids.len() - self.next,
        {
            let peer = self.peer_ids[self.next];
            let ghost i = self.next as int;
            self.next = self.next + 1;
            if !self.requested_from.contains(&peer) {
                assert(old(self)@.offers(i));
                return Some(peer);
            }
        }
        self.next = 0;
        None
    }

    /// Takes note that a peer took a request.
    pub fn requested(&mut self, peer: PeerId)
        ensures
            final(self)@ == old(self)@.taken_by(peer),
    {
        self.requested_from.insert(peer);
    }
}

} // verus!
