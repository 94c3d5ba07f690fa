//! The mathematical model of a registry, its invariant, and the rules that
//! decide whether an operation is refused.
use crate::address::Address;
use crate::error::ContractError;
use crate::market::Market;
use crate::uint::{word_modulus, Uint256};
use vstd::prelude::*;

verus! {

/// A registry as a value: markets are numbered from one, the market with
/// identifier `m` being `markets[m - 1]`.
pub struct RegistryModel {
    pub initialized: bool,
    pub next_market_id: u64,
    pub markets: Seq<Market>,
    pub index: Map<(Address, Address), u64>,
}

/// The check shared by every operation that names a token pair.
pub open spec fn token_failure(base_token: Address, quote_token: Address) -> Option<ContractError> {
    if base_token == Address::spec_zero() {
        Some(ContractError::BaseTokenCanNotBeZeroAddress)
    } else if quote_token == Address::spec_zero() {
        Some(ContractError::QuoteTokenCanNotBeZeroAddress)
    } else {
        None
    }
}

impl RegistryModel {
    /// The identifier recorded for the ordered pair, zero if none is.
    pub open spec fn id_of(self, base_token: Address, quote_token: Address) -> u64 {
        if self.index.contains_key((base_token, quote_token)) {
            self.index[(base_token, quote_token)]
        } else {
            0
        }
    }

    /// The market with identifier `id`, or the empty market if there is none.
    pub open spec fn market(self, id: u64) -> Market {
        if 1 <= id <= self.markets.len() {
            self.markets[id - 1]
        } else {
            Market::spec_empty()
        }
    }

    /// The market that the ordered pair resolves to, the empty one if none.
    pub open spec fn market_for(self, base_token: Address, quote_token: Address) -> Market {
        self.market(self.id_of(base_token, quote_token))
    }

    /// Whether `id` names a market that exists.
    pub open spec fn id_in_bounds(self, id: u64) -> bool {
        1 <= id < self.next_market_id
    }

    /// The registry's invariant: identifiers are dense, the index and the
    /// markets agree in both directions, and every market is valid.
    pub open spec fn wf(self) -> bool {
        &&& !self.initialized ==> self.next_market_id == 0 && self.markets.len() == 0
        &&& self.initialized ==> self.next_market_id == self.markets.len() + 1
        &&& forall|p: (Address, Address)| #[trigger]
            self.index.contains_key(p) ==> {
                &&& 1 <= self.index[p] <= self.markets.len()
                &&& self.markets[self.index[p] - 1].base_token == p.0
                &&& self.markets[self.index[p] - 1].quote_token == p.1
            }
        &&& forall|i: int|
            0 <= i < self.markets.len() ==> {
                &&& self.index.contains_key(
                    (#[trigger] self.markets[i].base_token, self.markets[i].quote_token),
                )
                &&& self.index[(self.markets[i].base_token, self.markets[i].quote_token)] == i + 1
                &&& self.markets[i].is_valid()
            }
    }

    /// The registry after `initialize` succeeds.
    pub open spec fn initialized(self) -> Self {
        RegistryModel { initialized: true, next_market_id: 1, ..self }
    }

    /// The registry after a market is added under the next identifier.
    pub open spec fn with_market(self, market: Market) -> Self {
        RegistryModel {
            next_market_id: (self.next_market_id + 1) as u64,
            markets: self.markets.push(market),
            index: self.index.insert((market.base_token, market.quote_token), self.next_market_id),
            ..self
        }
    }

    /// Why `create_market` refuses these arguments, checked in this order; `None`
    /// if it succeeds. (The division by the rate cannot fail once the rate
    /// is known not to be zero.)
    pub open spec fn create_failure(
        self,
        base_token: Address,
        quote_token: Address,
        exchange_rate: Uint256,
        base_amount: Uint256,
        quote_amount: Uint256,
    ) -> Option<ContractError> {
        let rate = exchange_rate.value();
        if rate == 0 {
            Some(ContractError::ExchangeRateCanNotBeZero)
        } else if token_failure(base_token, quote_token) is Some {
            token_failure(base_token, quote_token)
        } else if base_amount.value() != quote_amount.value() / rate {
            Some(ContractError::IncorrectBaseAmount)
        } else if base_amount.value() * rate >= word_modulus() {
            Some(ContractError::MultiplicationOverflow)
        } else if quote_amount.value() != base_amount.value() * rate {
            Some(ContractError::IncorrectQuoteAmount)
        } else if self.id_of(base_token, quote_token) != 0 {
            Some(ContractError::MarketExists)
        } else {
            None
        }
    }

    /// Why `swap_base_token_for_quote_token` refuses these arguments; `None` if
    /// it succeeds.
    pub open spec fn swap_base_failure(
        self,
        base_token: Address,
        quote_token: Address,
        base_amount: Uint256,
    ) -> Option<ContractError> {
        if base_amount.value() == 0 {
            Some(ContractError::AmountCanNotBeZero)
        } else if token_failure(base_token, quote_token) is Some {
            token_failure(base_token, quote_token)
        } else if base_amount.value() * self.market_for(
            base_token,
            quote_token,
        ).exchange_rate.value() >= word_modulus() {
            Some(ContractError::MultiplicationOverflow)
        } else {
            None
        }
    }

    /// Why `swap_quote_token_for_base_token` refuses these arguments; `None` if
    /// it succeeds.
    pub open spec fn swap_quote_failure(
        self,
        base_token: Address,
        quote_token: Address,
        quote_amount: Uint256,
    ) -> Option<ContractError> {
        if quote_amount.value() == 0 {
            Some(ContractError::AmountCanNotBeZero)
        } else if token_failure(base_token, quote_token) is Some {
            token_failure(base_token, quote_token)
        } else if self.market_for(base_token, quote_token).exchange_rate.value() == 0 {
            Some(ContractError::DivisionUnderflow)
        } else {
            None
        }
    }
}

} // verus!
