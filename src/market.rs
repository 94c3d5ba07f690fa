//! A market: a fixed exchange rate from a base token to a quote token.
use crate::address::Address;
use crate::uint::Uint256;
use vstd::prelude::*;

verus! {

/// Converts base amounts into quote amounts by multiplying with the rate.
/// Once stored in a registry a market never changes.
#[derive(Clone, Copy, Debug, PartialEq, Eq)]
pub struct Market {
    pub base_token: Address,
    pub quote_token: Address,
    pub exchange_rate: Uint256,
}

impl Market {
    /// What a lookup of an absent market yields: every field zero.
    pub open spec fn spec_empty() -> Self {
        Market {
            base_token: Address::spec_zero(),
            quote_token: Address::spec_zero(),
            exchange_rate: Uint256::spec_zero(),
        }
    }

    pub fn empty() -> (r: Self)
        ensures
            r == Self::spec_empty(),
    {
        Market { base_token: Address::zero(), quote_token: Address::zero(), exchange_rate: Uint256::zero() }
    }

    /// Neither token is the zero address and the rate is not zero.
    pub open spec fn is_valid(self) -> bool {
        &&& self.base_token != Address::spec_zero()
        &&& self.quote_token != Address::spec_zero()
        &&& self.exchange_rate.value() != 0
    }

    /// The market's fields as a (base, quote, rate) triple.
    pub open spec fn spec_fields(self) -> (Address, Address, Uint256) {
        (self.base_token, self.quote_token, self.exchange_rate)
    }
}

/// The quote amount that a base amount converts into at `rate`.
pub open spec fn quote_amount_for(base_amount: nat, rate: nat) -> nat {
    base_amount * rate
}

/// The base amount that a quote amount converts into at `rate`, rounded down.
pub open spec fn base_amount_for(quote_amount: nat, rate: nat) -> nat {
    quote_amount / rate
}

} // verus!
