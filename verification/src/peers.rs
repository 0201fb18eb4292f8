//! The peers that take part in synchronization.
use std::collections::HashMap;
use vstd::prelude::*;
use vstd::std_specs::iter::IteratorSpec;
use crate::chain::{max_chain, ChainInfo};
use crate::primitives::{PeerId, U256};

verus! {

broadcast use vstd::std_specs::hash::group_hash_axioms;

/// A peer, known by the chain head that it last advertised.
#[derive(Debug, Clone, Copy, PartialEq, Eq, Structural)]
pub struct Peer {
    pub status: ChainInfo,
}

impl Peer {
    /// Create a new peer.
    pub fn new(chain_info: ChainInfo) -> (res: Self)
        ensures
            res.status == chain_info,
    {
        Peer { status: chain_info }
    }
}

/// Whether `best` is a heaviest chain that the peers advertise, or there is no peer.
pub open spec fn is_best_of(best: Option<ChainInfo>, peers: Map<PeerId, Peer>) -> bool {
    match best {
        Some(info) => {
            &&& exists|id: PeerId| #[trigger] peers.contains_key(id) && peers[id].status == info
            &&& forall|id: PeerId| #[trigger]
                peers.contains_key(id) ==> peers[id].status.head_td@ <= info.head_td@
        },
        None => peers.is_empty(),
    }
}

/// Whether `ids` lists, once each, the peers whose chain is heavier than `td`.
pub open spec fn lists_heavier(ids: Seq<PeerId>, peers: Map<PeerId, Peer>, td: U256) -> bool {
    &&& ids.no_duplicates()
    &&& forall|id: PeerId| #[trigger]
        ids.contains(id) <==> peers.contains_key(id) && peers[id].status.head_td@ > td@
}

/// A listing stays one in whatever order its entries are put.
pub proof fn lemma_reordered_listing(
    ids: Seq<PeerId>,
    reordered: Seq<PeerId>,
    peers: Map<PeerId, Peer>,
    td: U256,
)
    requires
        lists_heavier(ids, peers, td),
        reordered.to_multiset() == ids.to_multiset(),
    ensures
        lists_heavier(reordered, peers, td),
{
    broadcast use vstd::seq_lib::group_to_multiset_ensures;

    ids.lemma_multiset_has_no_duplicates();
    reordered.lemma_multiset_has_no_duplicates_conv();
    assert forall|id: PeerId| #[trigger] reordered.contains(id) == ids.contains(id) by {
        assert(reordered.contains(id) <==> reordered.to_multiset().count(id) > 0);
        assert(ids.contains(id) <==> ids.to_multiset().count(id) > 0);
    }
}

/// Whether a walk over the peers meets each of them once, with what is known of it.
spec fn walks(entries: Seq<(&PeerId, &Peer)>, peers: Map<PeerId, Peer>) -> bool {
    &&& forall|i: int|
        0 <= i < entries.len() ==> peers.contains_key(*(#[trigger] entries[i]).0)
            && peers[*entries[i].0] == *entries[i].1
    &&& forall|id: PeerId| #[trigger]
        peers.contains_key(id) ==> visited(entries, entries.len() as int, id)
    &&& forall|i: int, j: int|
        0 <= i < j < entries.len() ==> *(#[trigger] entries[i]).0 != *(#[trigger] entries[j]).0
}

/// Whether a walk over the peers met this one among its first `count` entries.
spec fn visited(entries: Seq<(&PeerId, &Peer)>, count: int, id: PeerId) -> bool {
    exists|i: int| 0 <= i < count && *(#[trigger] entries[i]).0 == id
}

/// The entries of the map, met each once, walk over the peers.
proof fn lemma_iter_walks(peers: &HashMap<PeerId, Peer>, entries: Seq<(&PeerId, &Peer)>)
    requires
        entries == vstd::std_specs::hash::spec_hash_map_iter(peers).remaining(),
        entries.no_duplicates(),
    ensures
        walks(entries, peers@),
{
    assert forall|i: int| 0 <= i < entries.len() implies peers@.contains_key(
        *(#[trigger] entries[i]).0,
    ) && peers@[*entries[i].0] == *entries[i].1 by {
        assert(peers@.contains_key(*entries[i].0));
    }
    assert forall|id: PeerId| #[trigger] peers@.contains_key(id) implies visited(
        entries,
        entries.len() as int,
        id,
    ) by {
        assert(entries.contains((&id, &peers@[id])));
        let i = choose|i: int| 0 <= i < entries.len() && entries[i] == (&id, &peers@[id]);
        assert(*entries[i].0 == id);
    }
    assert forall|i: int, j: int| 0 <= i < j < entries.len() implies *(#[trigger] entries[i]).0 != *(
    #[trigger] entries[j]).0 by {
        if *entries[i].0 == *entries[j].0 {
            assert(entries[i] == entries[j]);
        }
    }
}

/// Finds a heaviest chain that the peers advertise. Of several that weigh the same it may be any.
pub fn best_of_peers(peers: &HashMap<PeerId, Peer>) -> (res: Option<ChainInfo>)
    ensures
        is_best_of(res, peers@),
{
    let mut best: Option<ChainInfo> = None;
    let entries = peers.iter();
    let ghost all = entries.remaining();
    proof {
        lemma_iter_walks(peers, all);
    }
    for entry in it: entries
        invariant
            it.seq() == all,
            walks(all, peers@),
            it.index() == 0 <==> best is None,
            best matches Some(info) ==> {
                &&& exists|i: int| 0 <= i < it.index() && (#[trigger] all[i]).1.status == info
                &&& forall|i: int|
                    0 <= i < it.index() ==> (#[trigger] all[i]).1.status.head_td@ <= info.head_td@
            },
    {
        best = max_chain(best, Some(entry.1.status));
        proof {
            let n = it.index() as int;
            assert(all[n].1.status == entry.1.status);
        }
    }
    proof {
        if let Some(info) = best {
            let i = choose|i: int| 0 <= i < all.len() && (#[trigger] all[i]).1.status == info;
            assert(peers@.contains_key(*all[i].0));
        }
    }
    best
}

/// Lists the peers whose chain is heavier than `td`, in no particular order.
pub fn heavier_peers(peers: &HashMap<PeerId, Peer>, td: U256) -> (res: Vec<PeerId>)
    ensures
        lists_heavier(res@, peers@, td),
{
    let mut ids: Vec<PeerId> = Vec::new();
    let entries = peers.iter();
    let ghost all = entries.remaining();
    proof {
        lemma_iter_walks(peers, all);
    }
    for entry in it: entries
        invariant
            it.seq() == all,
            walks(all, peers@),
            ids@.no_duplicates(),
            forall|k: int|
                0 <= k < ids.len() ==> {
                    &&& visited(all, it.index() as int, #[trigger] ids@[k])
                    &&& peers@[ids@[k]].status.head_td@ > td@
                },
            forall|i: int|
                0 <= i < it.index() && (#[trigger] all[i]).1.status.head_td@ > td@
                    ==> ids@.contains(*all[i].0),
    {
        let ghost before = ids@;
        if entry.1.status.head_td > td {
            ids.push(*entry.0);
        }
        proof {
            let n = it.index() as int;
            assert(all[n].0 == entry.0);
            assert forall|i: int|
                0 <= i < n + 1 && (#[trigger] all[i]).1.status.head_td@ > td@ implies ids@.contains(
                *all[i].0,
            ) by {
                if i < n {
                    let k = choose|k: int| 0 <= k < before.len() && before[k] == *all[i].0;
                    assert(ids@[k] == *all[i].0);
                } else {
                    assert(ids@[before.len() as int] == *all[n].0);
                }
            }
        }
    }
    proof {
        assert forall|id: PeerId| #[trigger] ids@.contains(id) <==> peers@.contains_key(id)
            && peers@[id].status.head_td@ > td@ by {
            if peers@.contains_key(id) && peers@[id].status.head_td@ > td@ {
                let i = choose|i: int| 0 <= i < all.len() && *(#[trigger] all[i]).0 == id;
                assert(ids@.contains(*all[i].0));
            }
        }
    }
    ids
}

} // verus!
