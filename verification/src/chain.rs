//! Chain heads as peers advertise them.
use std::cmp::Ordering;
use vstd::prelude::*;
use vstd::std_specs::cmp::PartialOrdSpec;
use crate::primitives::{order_of, H256, U256};

verus! {

/// Peer chain info.
#[derive(Debug, Clone, Copy, PartialEq, Eq, Structural)]
pub struct ChainInfo {
    pub head_td: U256,
    pub head_hash: H256,
    pub head_num: u64,
}

impl PartialOrd for ChainInfo {
    fn partial_cmp(&self, other: &Self) -> (res: Option<Ordering>) {
        self.head_td.partial_cmp(&other.head_td)
    }
}

impl vstd::std_specs::cmp::PartialOrdSpecImpl for ChainInfo {
    open spec fn obeys_partial_cmp_spec() -> bool {
        true
    }

    /// Chains are ordered by the total difficulty of their heads alone.
    open spec fn partial_cmp_spec(&self, other: &Self) -> Option<Ordering> {
        Some(order_of(self.head_td@, other.head_td@))
    }
}

impl ChainInfo {
    /// Compares two chains by the total difficulty of their heads.
    pub fn cmp(&self, other: &Self) -> (res: Ordering)
        ensures
            res == order_of(self.head_td@, other.head_td@),
            res == Ordering::Less <==> self.head_td@ < other.head_td@,
            res == Ordering::Equal <==> self.head_td == other.head_td,
            res == Ordering::Greater <==> self.head_td@ > other.head_td@,
    {
        self.head_td.cmp(&other.head_td)
    }
}

/// The heavier of two chains, where there is one; the second if they weigh the same.
pub open spec fn heavier(a: Option<ChainInfo>, b: Option<ChainInfo>) -> Option<ChainInfo> {
    match (a, b) {
        (Some(x), Some(y)) => if x.head_td@ > y.head_td@ {
            Some(x)
        } else {
            Some(y)
        },
        (Some(x), None) => Some(x),
        (None, _) => b,
    }
}

/// Which of two chains is the lesser depends on the difficulty of their heads and nothing else.
pub proof fn law_chains_ordered_by_difficulty(a: ChainInfo, b: ChainInfo)
    ensures
        a.partial_cmp_spec(&b) == Some(Ordering::Less) <==> a.head_td@ < b.head_td@,
        a.partial_cmp_spec(&b) == Some(Ordering::Equal) <==> a.head_td@ == b.head_td@,
        a.partial_cmp_spec(&b) == Some(Ordering::Greater) <==> a.head_td@ > b.head_td@,
{
}

/// The heavier of two chains is one of them, and neither outweighs it. It is the first only if that
/// one is strictly heavier or there is no second. There is none only if both are missing.
pub proof fn law_heavier_outweighs_both(a: Option<ChainInfo>, b: Option<ChainInfo>)
    ensures
        heavier(a, b) is None <==> a is None && b is None,
        heavier(a, b) == a || heavier(a, b) == b,
        a matches Some(x) ==> heavier(a, b)->0.head_td@ >= x.head_td@,
        b matches Some(y) ==> heavier(a, b)->0.head_td@ >= y.head_td@,
        b is Some && heavier(a, b) != b ==> a is Some && a->0.head_td@ > b->0.head_td@,
{
}

/// Picks the heavier of two chains, the second if they weigh the same.
pub fn max_chain(a: Option<ChainInfo>, b: Option<ChainInfo>) -> (res: Option<ChainInfo>)
    ensures
        res == heavier(a, b),
{
    match (a, b) {
        (Some(x), Some(y)) => match x.cmp(&y) {
            Ordering::Greater => Some(x),
            _ => Some(y),
        },
        (Some(x), None) => Some(x),
        (None, other) => other,
    }
}

} // verus!
