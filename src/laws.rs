//! Properties that relate several operations of the registry, stated over the
//! model that the operations' own contracts use.
use crate::address::Address;
use crate::error::ContractError;
use crate::market::{base_amount_for, quote_amount_for, Market};
use crate::model::RegistryModel;
use crate::uint::{lemma_value_in_range, word_modulus, Uint256};
use vstd::arithmetic::div_mod::{lemma_div_multiples_vanish, lemma_fundamental_div_mod};
use vstd::prelude::*;

verus! {

/// Right after a market is created, the pair resolves to the identifier it
/// was given, the market reads back as (base, quote, rate), and the next
/// identifier is one more.
pub proof fn lemma_created_market_is_found(
    before: RegistryModel,
    base_token: Address,
    quote_token: Address,
    exchange_rate: Uint256,
    base_amount: Uint256,
    quote_amount: Uint256,
)
    requires
        before.wf(),
        before.initialized,
        before.next_market_id < u64::MAX,
        before.create_failure(base_token, quote_token, exchange_rate, base_amount, quote_amount) is None,
    ensures
        ({
            let after = before.with_market(Market { base_token, quote_token, exchange_rate });
            let id = before.next_market_id;
            &&& after.id_of(base_token, quote_token) == id
            &&& after.market_for(base_token, quote_token).spec_fields() == (
                base_token,
                quote_token,
                exchange_rate,
            )
            &&& after.id_in_bounds(id)
            &&& after.market(id).spec_fields() == (base_token, quote_token, exchange_rate)
            &&& after.next_market_id == id + 1
        }),
{
}

/// Once a pair has a market, creating it again is refused whatever the rate
/// and amounts; when those are consistent the refusal is `MarketExists`.
pub proof fn lemma_pair_is_created_once(
    before: RegistryModel,
    base_token: Address,
    quote_token: Address,
    exchange_rate: Uint256,
    base_amount: Uint256,
    quote_amount: Uint256,
    second_rate: Uint256,
    second_base_amount: Uint256,
    second_quote_amount: Uint256,
)
    requires
        before.wf(),
        before.initialized,
        before.next_market_id < u64::MAX,
        before.create_failure(base_token, quote_token, exchange_rate, base_amount, quote_amount) is None,
    ensures
        ({
            let after = before.with_market(Market { base_token, quote_token, exchange_rate });
            let second = after.create_failure(
                base_token,
                quote_token,
                second_rate,
                second_base_amount,
                second_quote_amount,
            );
            &&& second is Some
            &&& second_rate.value() != 0 && second_quote_amount.value() == second_base_amount.value()
                * second_rate.value() ==> second == Some(ContractError::MarketExists)
        }),
{
    let after = before.with_market(Market { base_token, quote_token, exchange_rate });
    assert(after.id_of(base_token, quote_token) == before.next_market_id);
    let r = second_rate.value() as int;
    let b = second_base_amount.value() as int;
    if r != 0 && second_quote_amount.value() == b * r {
        lemma_div_multiples_vanish(b, r);
        lemma_value_in_range(second_quote_amount);
    }
}

/// Swapping a base amount for quote and the quote received back for base
/// returns exactly the base amount: nothing is lost in that direction.
pub proof fn lemma_swap_round_trip(
    registry: RegistryModel,
    base_token: Address,
    quote_token: Address,
    base_amount: Uint256,
    quote_received: Uint256,
)
    requires
        registry.wf(),
        registry.id_of(base_token, quote_token) != 0,
        registry.swap_base_failure(base_token, quote_token, base_amount) is None,
        quote_received.value() == quote_amount_for(
            base_amount.value(),
            registry.market_for(base_token, quote_token).exchange_rate.value(),
        ),
    ensures
        registry.swap_quote_failure(base_token, quote_token, quote_received) is None,
        base_amount_for(
            quote_received.value(),
            registry.market_for(base_token, quote_token).exchange_rate.value(),
        ) == base_amount.value(),
{
    let rate = registry.market_for(base_token, quote_token).exchange_rate.value() as int;
    let p = (base_token, quote_token);
    assert(registry.index.contains_key(p));
    let i = registry.index[p] - 1;
    assert(registry.markets[i].is_valid());
    assert(rate > 0);
    lemma_div_multiples_vanish(base_amount.value() as int, rate);
    assert(quote_received.value() != 0) by (nonlinear_arith)
        requires
            quote_received.value() == base_amount.value() * rate,
            base_amount.value() > 0,
            rate > 0,
    ;
}

/// Swapping a quote amount for base and back loses what the division by the
/// rate truncated: the remainder of the quote amount by the rate, and
/// nothing when the rate divides it.
pub proof fn lemma_quote_round_trip_loss(quote_amount: nat, rate: nat)
    requires
        rate > 0,
    ensures
        quote_amount_for(base_amount_for(quote_amount, rate), rate) == quote_amount - quote_amount
            % rate,
        quote_amount % rate == 0 ==> quote_amount_for(base_amount_for(quote_amount, rate), rate)
            == quote_amount,
{
    let (x, d) = (quote_amount as int, rate as int);
    lemma_fundamental_div_mod(x, d);
    assert((x / d) * d == d * (x / d)) by (nonlinear_arith);
}

/// Identifier zero and the next identifier are out of bounds; the last
/// identifier given out is in bounds once any market exists.
pub proof fn lemma_market_id_bounds(registry: RegistryModel)
    requires
        registry.wf(),
    ensures
        !registry.id_in_bounds(0),
        !registry.id_in_bounds(registry.next_market_id),
        registry.markets.len() >= 1 ==> registry.id_in_bounds(
            (registry.next_market_id - 1) as u64,
        ),
{
}

/// Every mutating operation refuses a zero rate, a zero amount or a zero
/// token address with the matching error, in the order it checks them.
pub proof fn lemma_zero_inputs_refused(
    registry: RegistryModel,
    base_token: Address,
    quote_token: Address,
    exchange_rate: Uint256,
    base_amount: Uint256,
    quote_amount: Uint256,
)
    ensures
        exchange_rate.value() == 0 ==> registry.create_failure(
            base_token,
            quote_token,
            exchange_rate,
            base_amount,
            quote_amount,
        ) == Some(ContractError::ExchangeRateCanNotBeZero),
        exchange_rate.value() != 0 && base_token == Address::spec_zero() ==> registry.create_failure(
            base_token,
            quote_token,
            exchange_rate,
            base_amount,
            quote_amount,
        ) == Some(ContractError::BaseTokenCanNotBeZeroAddress),
        exchange_rate.value() != 0 && base_token != Address::spec_zero() && quote_token
            == Address::spec_zero() ==> registry.create_failure(
            base_token,
            quote_token,
            exchange_rate,
            base_amount,
            quote_amount,
        ) == Some(ContractError::QuoteTokenCanNotBeZeroAddress),
        base_amount.value() == 0 ==> registry.swap_base_failure(base_token, quote_token, base_amount)
            == Some(ContractError::AmountCanNotBeZero),
        quote_amount.value() == 0 ==> registry.swap_quote_failure(
            base_token,
            quote_token,
            quote_amount,
        ) == Some(ContractError::AmountCanNotBeZero),
        base_amount.value() != 0 && base_token == Address::spec_zero() ==> registry.swap_base_failure(
            base_token,
            quote_token,
            base_amount,
        ) == Some(ContractError::BaseTokenCanNotBeZeroAddress),
        quote_amount.value() != 0 && base_token == Address::spec_zero() ==> registry.swap_quote_failure(
            base_token,
            quote_token,
            quote_amount,
        ) == Some(ContractError::BaseTokenCanNotBeZeroAddress),
        base_amount.value() != 0 && base_token != Address::spec_zero() && quote_token
            == Address::spec_zero() ==> registry.swap_base_failure(base_token, quote_token, base_amount)
            == Some(ContractError::QuoteTokenCanNotBeZeroAddress),
        quote_amount.value() != 0 && base_token != Address::spec_zero() && quote_token
            == Address::spec_zero() ==> registry.swap_quote_failure(
            base_token,
            quote_token,
            quote_amount,
        ) == Some(ContractError::QuoteTokenCanNotBeZeroAddress),
{
}

} // verus!
