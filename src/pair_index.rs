//! The token-pair index: which market, if any, trades an ordered pair of tokens.
use crate::address::Address;
use std::collections::BTreeMap;
use vstd::prelude::*;

verus! {

broadcast use vstd::laws_cmp::group_laws_cmp;

/// The ordered pair (base, quote) flattened into a tuple of integers, which
/// is what the index is keyed by.
pub open spec fn pair_key(base: Address, quote: Address) -> (u32, u128, u32, u128) {
    (base.hi, base.lo, quote.hi, quote.lo)
}

/// Maps an ordered (base, quote) pair to a market identifier. A pair that
/// was never recorded reads as identifier zero.
#[derive(Clone)]
pub struct TokenPairIndex {
    ids: BTreeMap<(u32, u128, u32, u128), u64>,
}

impl View for TokenPairIndex {
    type V = Map<(Address, Address), u64>;

    closed spec fn view(&self) -> Map<(Address, Address), u64> {
        Map::new(
            |p: (Address, Address)| self.ids@.contains_key(pair_key(p.0, p.1)),
            |p: (Address, Address)| self.ids@[pair_key(p.0, p.1)],
        )
    }
}

impl TokenPairIndex {
    /// The identifier recorded for (base, quote), zero if none is.
    pub open spec fn id_of(self, base: Address, quote: Address) -> u64 {
        if self@.contains_key((base, quote)) {
            self@[(base, quote)]
        } else {
            0
        }
    }

    pub fn new() -> (r: Self)
        ensures
            r@ == Map::<(Address, Address), u64>::empty(),
    {
        let r = TokenPairIndex { ids: BTreeMap::new() };
        assert(r@ =~= Map::<(Address, Address), u64>::empty());
        r
    }

    pub fn lookup(&self, base: Address, quote: Address) -> (r: u64)
        ensures
            r == self.id_of(base, quote),
    {
        match self.ids.get(&(base.hi, base.lo, quote.hi, quote.lo)) {
            Some(id) => *id,
            None => 0,
        }
    }

    /// Records `id` for (base, quote), replacing what was there.
    pub fn insert(&mut self, base: Address, quote: Address, id: u64)
        ensures
            final(self)@ == old(self)@.insert((base, quote), id),
    {
        self.ids.insert((base.hi, base.lo, quote.hi, quote.lo), id);
        assert(self@ =~= old(self)@.insert((base, quote), id));
    }
}

} // verus!
