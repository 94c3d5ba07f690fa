//! The market registry and swap engine.
use crate::address::Address;
use crate::effects::{Effects, Notification, Transfer};
use crate::error::ContractError;
use crate::market::{base_amount_for, quote_amount_for, Market};
use crate::model::{token_failure, RegistryModel};
use crate::pair_index::TokenPairIndex;
use crate::uint::{checked_div, checked_mul, Uint256};
use vstd::prelude::*;

verus! {

/// The registry: an initialisation flag, the identifier the next market will
/// get, the markets created so far, and the index from token pairs to them.
#[derive(Clone)]
pub struct Contract {
    initialized: bool,
    market_index: u64,
    markets: Vec<Market>,
    indexes: TokenPairIndex,
}

impl View for Contract {
    type V = RegistryModel;

    closed spec fn view(&self) -> RegistryModel {
        RegistryModel {
            initialized: self.initialized,
            next_market_id: self.market_index,
            markets: self.markets@,
            index: self.indexes@,
        }
    }
}

/// The settlement of a successful `create_market`: both amounts are pulled
/// from the caller, then the market is announced.
pub open spec fn is_creation_settlement(
    fx: Effects,
    base_token: Address,
    quote_token: Address,
    exchange_rate: Uint256,
    base_amount: Uint256,
    quote_amount: Uint256,
) -> bool {
    &&& fx.transfers@ == seq![
        Transfer::FromCaller { token: base_token, amount: base_amount },
        Transfer::FromCaller { token: quote_token, amount: quote_amount },
    ]
    &&& fx.notifications@ == seq![
        Notification::MarketCreated { base_token, quote_token, exchange_rate },
    ]
}

/// The settlement of a successful base-for-quote swap on `market`: the base
/// amount is pulled from the caller and `base_amount * rate` of the quote
/// token is paid out, then the swap is announced.
pub open spec fn is_base_swap_settlement(
    fx: Effects,
    market: Market,
    base_token: Address,
    quote_token: Address,
    base_amount: Uint256,
) -> bool {
    &&& fx.transfers@.len() == 2
    &&& fx.transfers@[0] == Transfer::FromCaller { token: market.base_token, amount: base_amount }
    &&& fx.transfers@[1] matches Transfer::ToCaller { token, amount } && token
        == market.quote_token && amount.value() == quote_amount_for(
        base_amount.value(),
        market.exchange_rate.value(),
    )
    &&& fx.notifications@.len() == 1
    &&& fx.notifications@[0] matches Notification::SwappedBaseTokenForQuoteToken {
        base_token: b,
        quote_token: q,
        amount_in,
        amount_out,
    } && b == base_token && q == quote_token && amount_in == base_amount && amount_out
        == fx.transfers@[1]->ToCaller_amount
}

/// The settlement of a successful quote-for-base swap on `market`: the quote
/// amount is pulled from the caller and `quote_amount / rate` of the base
/// token is paid out. No notification is emitted.
pub open spec fn is_quote_swap_settlement(fx: Effects, market: Market, quote_amount: Uint256) -> bool {
    &&& fx.transfers@.len() == 2
    &&& fx.transfers@[0] == Transfer::FromCaller { token: market.quote_token, amount: quote_amount }
    &&& fx.transfers@[1] matches Transfer::ToCaller { token, amount } && token
        == market.base_token && amount.value() == base_amount_for(
        quote_amount.value(),
        market.exchange_rate.value(),
    )
    &&& fx.notifications@.len() == 0
}

impl Contract {
    /// The registry's invariant, over its model.
    pub open spec fn wf(&self) -> bool {
        self@.wf()
    }

    /// A registry as first accessed: not initialised, no markets.
    pub fn new() -> (r: Self)
        ensures
            r.wf(),
            !r@.initialized,
            r@.next_market_id == 0,
            r@.markets.len() == 0,
            r@.index == Map::<(Address, Address), u64>::empty(),
    {
        Contract { initialized: false, market_index: 0, markets: Vec::new(), indexes: TokenPairIndex::new() }
    }

    /// Opens the registry; identifiers then start at one.
    pub fn initialize(&mut self) -> (r: Result<Effects, ContractError>)
        requires
            old(self).wf(),
        ensures
            final(self).wf(),
            old(self)@.initialized ==> r == Err::<Effects, ContractError>(ContractError::AlreadyInitialized)
                && *final(self) == *old(self),
            !old(self)@.initialized ==> r is Ok && final(self)@ == old(self)@.initialized()
                && r->Ok_0.transfers@.len() == 0 && r->Ok_0.notifications@ == seq![
                Notification::Initialized,
            ],
    {
        if self.initialized {
            return Err(ContractError::AlreadyInitialized);
        }
        self.initialized = true;
        self.market_index = 1;
        assert(self@ == old(self)@.initialized());
        assert(forall|p: (Address, Address)| !#[trigger] self@.index.contains_key(p));
        let mut notifications: Vec<Notification> = Vec::new();
        notifications.push(Notification::Initialized);
        Ok(Effects { transfers: Vec::new(), notifications })
    }

    /// The market stored under `id`, or the empty market if there is none.
    fn market(&self, id: u64) -> (r: Market)
        ensures
            r == self@.market(id),
    {
        if id >= 1 && id - 1 < self.markets.len() as u64 {
            self.markets[(id - 1) as usize]
        } else {
            Market::empty()
        }
    }

    /// Adds a market for (base, quote) at the given rate, into which the caller
    /// pays `base_amount` of the base token and `quote_amount` of the quote
    /// token; the two must agree with the rate exactly. Returns one more than
    /// the new market's identifier, which is the identifier the next market
    /// will get.
    pub fn create_market(
        &mut self,
        base_token: Address,
        quote_token: Address,
        exchange_rate: Uint256,
        base_amount: Uint256,
        quote_amount: Uint256,
    ) -> (r: Result<(Uint256, Effects), ContractError>)
        requires
            old(self).wf(),
            old(self)@.initialized,
            old(self)@.next_market_id < u64::MAX,
        ensures
            final(self).wf(),
            old(self)@.create_failure(base_token, quote_token, exchange_rate, base_amount, quote_amount)
                matches Some(e) ==> r == Err::<(Uint256, Effects), ContractError>(e) && *final(self)
                == *old(self),
            old(self)@.create_failure(base_token, quote_token, exchange_rate, base_amount, quote_amount)
                is None ==> {
                &&& r is Ok
                &&& r->Ok_0.0.value() == old(self)@.next_market_id + 1
                &&& final(self)@ == old(self)@.with_market(
                    (Market { base_token, quote_token, exchange_rate }),
                )
                &&& is_creation_settlement(
                    r->Ok_0.1,
                    base_token,
                    quote_token,
                    exchange_rate,
                    base_amount,
                    quote_amount,
                )
            },
    {
        if exchange_rate.is_zero() {
            return Err(ContractError::ExchangeRateCanNotBeZero);
        }
        if base_token.is_zero() {
            return Err(ContractError::BaseTokenCanNotBeZeroAddress);
        }
        if quote_token.is_zero() {
            return Err(ContractError::QuoteTokenCanNotBeZeroAddress);
        }
        let expected_base_amount = match checked_div(&quote_amount, &exchange_rate) {
            Some(q) => q,
            None => return Err(ContractError::DivisionUnderflow),
        };
        if !base_amount.same_as(&expected_base_amount) {
            return Err(ContractError::IncorrectBaseAmount);
        }
        let expected_quote_amount = match checked_mul(&base_amount, &exchange_rate) {
            Some(p) => p,
            None => return Err(ContractError::MultiplicationOverflow),
        };
        if !quote_amount.same_as(&expected_quote_amount) {
            return Err(ContractError::IncorrectQuoteAmount);
        }
        let id = self.market_index;
        if self.indexes.lookup(base_token, quote_token) != 0 {
            return Err(ContractError::MarketExists);
        }
        let market = Market { base_token, quote_token, exchange_rate };
        assert(market.is_valid()) by {
            assert(!(base_token == Address::spec_zero()));
        }
        let ghost before = self@;
        self.markets.push(market);
        self.indexes.insert(base_token, quote_token, id);
        self.market_index = id + 1;
        proof {
            let after = self@;
            assert(after == before.with_market(market));
            assert forall|p: (Address, Address)| #[trigger] after.index.contains_key(p) implies {
                &&& 1 <= after.index[p] <= after.markets.len()
                &&& after.markets[after.index[p] - 1].base_token == p.0
                &&& after.markets[after.index[p] - 1].quote_token == p.1
            } by {
                if p != (base_token, quote_token) {
                    assert(before.index.contains_key(p));
                }
            }
            assert forall|i: int| 0 <= i < after.markets.len() implies {
                &&& after.index.contains_key(
                    (#[trigger] after.markets[i].base_token, after.markets[i].quote_token),
                )
                &&& after.index[(after.markets[i].base_token, after.markets[i].quote_token)] == i
                    + 1
                &&& after.markets[i].is_valid()
            } by {
                if i < before.markets.len() {
                    assert(after.markets[i] == before.markets[i]);
                    assert(before.index.contains_key(
                        (before.markets[i].base_token, before.markets[i].quote_token),
                    ));
                }
            }
        }
        let mut transfers: Vec<Transfer> = Vec::new();
        transfers.push(Transfer::FromCaller { token: base_token, amount: base_amount });
        transfers.push(Transfer::FromCaller { token: quote_token, amount: quote_amount });
        let mut notifications: Vec<Notification> = Vec::new();
        notifications.push(Notification::MarketCreated { base_token, quote_token, exchange_rate });
        assert(transfers@ =~= seq![
            Transfer::FromCaller { token: base_token, amount: base_amount },
            Transfer::FromCaller { token: quote_token, amount: quote_amount },
        ]);
        assert(notifications@ =~= seq![
            Notification::MarketCreated { base_token, quote_token, exchange_rate },
        ]);
        Ok((Uint256::from_u64(id + 1), Effects { transfers, notifications }))
    }

    /// Pays out `base_amount * rate` of the quote token for `base_amount` of
    /// the base token, at the rate of the market for (base, quote). A pair
    /// without a market resolves to the empty market, whose rate is zero.
    pub fn swap_base_token_for_quote_token(
        &mut self,
        base_token: Address,
        quote_token: Address,
        base_amount: Uint256,
    ) -> (r: Result<Effects, ContractError>)
        ensures
            *final(self) == *old(self),
            old(self)@.swap_base_failure(base_token, quote_token, base_amount) matches Some(e) ==> r
                == Err::<Effects, ContractError>(e),
            old(self)@.swap_base_failure(base_token, quote_token, base_amount) is None ==> r is Ok
                && is_base_swap_settlement(
                r->Ok_0,
                old(self)@.market_for(base_token, quote_token),
                base_token,
                quote_token,
                base_amount,
            ),
    {
        if base_amount.is_zero() {
            return Err(ContractError::AmountCanNotBeZero);
        }
        if base_token.is_zero() {
            return Err(ContractError::BaseTokenCanNotBeZeroAddress);
        }
        if quote_token.is_zero() {
            return Err(ContractError::QuoteTokenCanNotBeZeroAddress);
        }
        let market = self.market(self.indexes.lookup(base_token, quote_token));
        let quote_amount = match checked_mul(&base_amount, &market.exchange_rate) {
            Some(p) => p,
            None => return Err(ContractError::MultiplicationOverflow),
        };
        let mut transfers: Vec<Transfer> = Vec::new();
        transfers.push(Transfer::FromCaller { token: market.base_token, amount: base_amount });
        transfers.push(Transfer::ToCaller { token: market.quote_token, amount: quote_amount });
        let mut notifications: Vec<Notification> = Vec::new();
        notifications.push(
            Notification::SwappedBaseTokenForQuoteToken {
                base_token,
                quote_token,
                amount_in: base_amount,
                amount_out: quote_amount,
            },
        );
        Ok(Effects { transfers, notifications })
    }

    /// Pays out `quote_amount / rate` of the base token, rounded down, for
    /// `quote_amount` of the quote token, at the rate of the market for
    /// (base, quote). A pair without a market has rate zero and is refused.
    pub fn swap_quote_token_for_base_token(
        &mut self,
        base_token: Address,
        quote_token: Address,
        quote_amount: Uint256,
    ) -> (r: Result<Effects, ContractError>)
        ensures
            *final(self) == *old(self),
            old(self)@.swap_quote_failure(base_token, quote_token, quote_amount) matches Some(e) ==> r
                == Err::<Effects, ContractError>(e),
            old(self)@.swap_quote_failure(base_token, quote_token, quote_amount) is None ==> r is Ok
                && is_quote_swap_settlement(
                r->Ok_0,
                old(self)@.market_for(base_token, quote_token),
                quote_amount,
            ),
    {
        if quote_amount.is_zero() {
            return Err(ContractError::AmountCanNotBeZero);
        }
        if base_token.is_zero() {
            return Err(ContractError::BaseTokenCanNotBeZeroAddress);
        }
        if quote_token.is_zero() {
            return Err(ContractError::QuoteTokenCanNotBeZeroAddress);
        }
        let market = self.market(self.indexes.lookup(base_token, quote_token));
        let base_amount = match checked_div(&quote_amount, &market.exchange_rate) {
            Some(q) => q,
            None => return Err(ContractError::DivisionUnderflow),
        };
        let mut transfers: Vec<Transfer> = Vec::new();
        transfers.push(Transfer::FromCaller { token: market.quote_token, amount: quote_amount });
        transfers.push(Transfer::ToCaller { token: market.base_token, amount: base_amount });
        Ok(Effects { transfers, notifications: Vec::new() })
    }

    /// Whether `initialize` has succeeded.
    pub fn fetch_initialization_status(&self) -> (r: Result<bool, ContractError>)
        ensures
            r == Ok::<bool, ContractError>(self@.initialized),
    {
        Ok(self.initialized)
    }

    /// The identifier the next market will get; zero before initialisation.
    pub fn fetch_current_market_index(&self) -> (r: Result<Uint256, ContractError>)
        ensures
            r is Ok,
            r->Ok_0.value() == self@.next_market_id,
    {
        Ok(Uint256::from_u64(self.market_index))
    }

    /// Refuses a zero token address, as every query by token pair does.
    fn check_tokens(base_token: Address, quote_token: Address) -> (r: Result<(), ContractError>)
        ensures
            token_failure(base_token, quote_token) matches Some(e) ==> r == Err::<(), ContractError>(e),
            token_failure(base_token, quote_token) is None ==> r is Ok,
    {
        if base_token.is_zero() {
            return Err(ContractError::BaseTokenCanNotBeZeroAddress);
        }
        if quote_token.is_zero() {
            return Err(ContractError::QuoteTokenCanNotBeZeroAddress);
        }
        Ok(())
    }

    /// The rate of the market for (base, quote); zero if there is none.
    pub fn fetch_exchange_rate(&self, base_token: Address, quote_token: Address) -> (r: Result<
        Uint256,
        ContractError,
    >)
        ensures
            token_failure(base_token, quote_token) matches Some(e) ==> r == Err::<Uint256, ContractError>(e),
            token_failure(base_token, quote_token) is None ==> r == Ok::<Uint256, ContractError>(
                self@.market_for(base_token, quote_token).exchange_rate,
            ),
    {
        Self::check_tokens(base_token, quote_token)?;
        Ok(self.market(self.indexes.lookup(base_token, quote_token)).exchange_rate)
    }

    /// The identifier of the market for (base, quote); zero if there is none.
    pub fn fetch_market_id(&self, base_token: Address, quote_token: Address) -> (r: Result<
        Uint256,
        ContractError,
    >)
        ensures
            token_failure(base_token, quote_token) matches Some(e) ==> r == Err::<Uint256, ContractError>(e),
            token_failure(base_token, quote_token) is None ==> r is Ok && r->Ok_0.value()
                == self@.id_of(base_token, quote_token),
    {
        Self::check_tokens(base_token, quote_token)?;
        Ok(Uint256::from_u64(self.indexes.lookup(base_token, quote_token)))
    }

    /// The (base, quote, rate) of the market for (base, quote); all zero if
    /// there is none.
    pub fn fetch_market_by_tokens(&self, base_token: Address, quote_token: Address) -> (r: Result<
        (Address, Address, Uint256),
        ContractError,
    >)
        ensures
            token_failure(base_token, quote_token) matches Some(e) ==> r == Err::<
                (Address, Address, Uint256),
                ContractError,
            >(e),
            token_failure(base_token, quote_token) is None ==> r == Ok::<
                (Address, Address, Uint256),
                ContractError,
            >(self@.market_for(base_token, quote_token).spec_fields()),
    {
        Self::check_tokens(base_token, quote_token)?;
        let market = self.market(self.indexes.lookup(base_token, quote_token));
        Ok((market.base_token, market.quote_token, market.exchange_rate))
    }

    /// The (base, quote, rate) of the market with identifier `market_index`,
    /// which must lie in [1, next identifier).
    pub fn fetch_market_by_id(&self, market_index: u64) -> (r: Result<
        (Address, Address, Uint256),
        ContractError,
    >)
        ensures
            !self@.id_in_bounds(market_index) ==> r == Err::<(Address, Address, Uint256), ContractError>(
                ContractError::OutOfBoundIndex,
            ),
            self@.id_in_bounds(market_index) ==> r == Ok::<(Address, Address, Uint256), ContractError>(
                self@.market(market_index).spec_fields(),
            ),
    {
        if market_index >= self.market_index || market_index == 0 {
            return Err(ContractError::OutOfBoundIndex);
        }
        let market = self.market(market_index);
        Ok((market.base_token, market.quote_token, market.exchange_rate))
    }
}

} // verus!
