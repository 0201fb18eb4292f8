//! 256-bit values and identifiers that the synchronization logic handles.
use std::cmp::Ordering;
use vstd::prelude::*;
use vstd::std_specs::cmp::PartialOrdSpec;

verus! {

/// Identifier of a connected peer.
pub type PeerId = usize;

/// Identifier of a request that is in flight.
#[derive(Debug, Clone, Copy, PartialEq, Eq, Structural)]
pub struct ReqId(pub usize);

/// A 256-bit hash, held as its most and least significant halves.
#[derive(Debug, Clone, Copy, PartialEq, Eq, Structural)]
pub struct H256 {
    pub high: u128,
    pub low: u128,
}

/// A 256-bit unsigned integer, held as its most and least significant halves.
#[derive(Debug, Clone, Copy, PartialEq, Eq, Structural)]
pub struct U256 {
    pub high: u128,
    pub low: u128,
}

impl View for U256 {
    type V = nat;

    /// The number that the two halves stand for.
    open spec fn view(&self) -> nat {
        (self.high * 0x1_0000_0000_0000_0000_0000_0000_0000_0000int + self.low) as nat
    }
}

/// How two numbers compare.
pub open spec fn order_of(a: nat, b: nat) -> Ordering {
    if a < b {
        Ordering::Less
    } else if a == b {
        Ordering::Equal
    } else {
        Ordering::Greater
    }
}

impl PartialOrd for U256 {
    fn partial_cmp(&self, other: &Self) -> (res: Option<Ordering>) {
        Some(self.cmp(other))
    }
}

impl vstd::std_specs::cmp::PartialOrdSpecImpl for U256 {
    open spec fn obeys_partial_cmp_spec() -> bool {
        true
    }

    open spec fn partial_cmp_spec(&self, other: &Self) -> Option<Ordering> {
        Some(order_of(self@, other@))
    }
}

impl U256 {
    /// Compares two integers by value.
    pub fn cmp(&self, other: &Self) -> (res: Ordering)
        ensures
            res == order_of(self@, other@),
            res == Ordering::Less <==> self@ < other@,
            res == Ordering::Equal <==> *self == *other,
            res == Ordering::Greater <==> self@ > other@,
    {
        if self.high < other.high {
            Ordering::Less
        } else if self.high > other.high {
            Ordering::Greater
        } else if self.low < other.low {
            Ordering::Less
        } else if self.low > other.low {
            Ordering::Greater
        } else {
            Ordering::Equal
        }
    }
}

/// The more significant halves decide which of two integers is the smaller; only if they are equal do
/// the less significant ones.
pub proof fn law_u256_ordered_by_halves(a: U256, b: U256)
    ensures
        a@ < b@ <==> a.high < b.high || (a.high == b.high && a.low < b.low),
        a.partial_cmp_spec(&b) == Some(Ordering::Less) <==> a@ < b@,
        a.partial_cmp_spec(&b) == Some(Ordering::Equal) <==> a == b,
        a.partial_cmp_spec(&b) == Some(Ordering::Greater) <==> a@ > b@,
{
}

/// Two integers are equal exactly if they stand for the same number.
pub proof fn law_u256_equal_by_value(a: U256, b: U256)
    ensures
        a == b <==> a@ == b@,
{
}

} // verus!
