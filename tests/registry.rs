use fixed_rate_exchange::{Address, Contract, ContractError, Notification, Transfer, Uint256};

const ONE_TOKEN: u128 = 1_000_000_000_000_000_000;

fn token(n: u128) -> Address {
    Address::new(0, n)
}

fn amount(n: u128) -> Uint256 {
    Uint256::from_u128(n)
}

fn opened() -> Contract {
    let mut c = Contract::new();
    c.initialize().unwrap();
    c
}

/// Applies a settlement to a two-party ledger: (caller balance, custody balance) per token.
fn settle(
    balances: &mut Vec<(Address, u128, u128)>,
    transfers: &[Transfer],
) {
    for t in transfers {
        let (tok, amt, to_custody) = match t {
            Transfer::FromCaller { token, amount } => (*token, *amount, true),
            Transfer::ToCaller { token, amount } => (*token, *amount, false),
        };
        let limbs = amt.as_limbs();
        assert_eq!(limbs[2], 0);
        assert_eq!(limbs[3], 0);
        let n = (limbs[0] as u128) | ((limbs[1] as u128) << 64);
        let entry = balances.iter_mut().find(|e| e.0 == tok).unwrap();
        if to_custody {
            entry.1 -= n;
            entry.2 += n;
        } else {
            entry.1 += n;
            entry.2 -= n;
        }
    }
}

#[test]
fn example_scenario() {
    let (t1, t2) = (token(1), token(2));
    let mut c = Contract::new();
    let fx = c.initialize().unwrap();
    assert_eq!(fx.notifications, vec![Notification::Initialized]);
    assert!(fx.transfers.is_empty());
    let (ret, fx) = c
        .create_market(t1, t2, amount(3), amount(100 * ONE_TOKEN), amount(300 * ONE_TOKEN))
        .unwrap();
    assert_eq!(c.fetch_market_id(t1, t2).unwrap(), amount(1));
    assert_eq!(ret, amount(2));
    assert_eq!(c.fetch_exchange_rate(t1, t2).unwrap(), amount(3));
    let mut balances = vec![(t1, 1_000 * ONE_TOKEN, 0u128), (t2, 1_000 * ONE_TOKEN, 0u128)];
    settle(&mut balances, &fx.transfers);
    assert_eq!(balances[0], (t1, 900 * ONE_TOKEN, 100 * ONE_TOKEN));
    assert_eq!(balances[1], (t2, 700 * ONE_TOKEN, 300 * ONE_TOKEN));

    let fx = c.swap_base_token_for_quote_token(t1, t2, amount(ONE_TOKEN)).unwrap();
    assert_eq!(
        fx.transfers,
        vec![
            Transfer::FromCaller { token: t1, amount: amount(ONE_TOKEN) },
            Transfer::ToCaller { token: t2, amount: amount(3 * ONE_TOKEN) },
        ]
    );
    assert_eq!(
        fx.notifications,
        vec![Notification::SwappedBaseTokenForQuoteToken {
            base_token: t1,
            quote_token: t2,
            amount_in: amount(ONE_TOKEN),
            amount_out: amount(3 * ONE_TOKEN),
        }]
    );
    settle(&mut balances, &fx.transfers);
    assert_eq!(balances[0], (t1, 899 * ONE_TOKEN, 101 * ONE_TOKEN));
    assert_eq!(balances[1], (t2, 703 * ONE_TOKEN, 297 * ONE_TOKEN));

    let fx = c.swap_quote_token_for_base_token(t1, t2, amount(3 * ONE_TOKEN)).unwrap();
    assert_eq!(
        fx.transfers,
        vec![
            Transfer::FromCaller { token: t2, amount: amount(3 * ONE_TOKEN) },
            Transfer::ToCaller { token: t1, amount: amount(ONE_TOKEN) },
        ]
    );
    assert!(fx.notifications.is_empty());
    settle(&mut balances, &fx.transfers);
    assert_eq!(balances[0], (t1, 900 * ONE_TOKEN, 100 * ONE_TOKEN));
    assert_eq!(balances[1], (t2, 700 * ONE_TOKEN, 300 * ONE_TOKEN));
}

#[test]
fn created_market_is_found() {
    let mut c = opened();
    let (b, q) = (token(10), Address::new(7, 11));
    let (ret, fx) = c.create_market(b, q, amount(5), amount(4), amount(20)).unwrap();
    assert_eq!(ret, amount(2));
    assert_eq!(c.fetch_market_id(b, q).unwrap(), amount(1));
    assert_eq!(c.fetch_market_by_tokens(b, q).unwrap(), (b, q, amount(5)));
    assert_eq!(c.fetch_current_market_index().unwrap(), amount(2));
    assert_eq!(c.fetch_market_by_id(1).unwrap(), (b, q, amount(5)));
    assert_eq!(
        fx.transfers,
        vec![
            Transfer::FromCaller { token: b, amount: amount(4) },
            Transfer::FromCaller { token: q, amount: amount(20) },
        ]
    );
    assert_eq!(
        fx.notifications,
        vec![Notification::MarketCreated { base_token: b, quote_token: q, exchange_rate: amount(5) }]
    );
    let (ret, _) = c.create_market(token(12), token(13), amount(1), amount(9), amount(9)).unwrap();
    assert_eq!(ret, amount(3));
    assert_eq!(c.fetch_market_id(token(12), token(13)).unwrap(), amount(2));
    assert_eq!(c.fetch_current_market_index().unwrap(), amount(3));
}

#[test]
fn second_creation_of_a_pair_is_refused() {
    let mut c = opened();
    let (b, q) = (token(1), token(2));
    c.create_market(b, q, amount(2), amount(3), amount(6)).unwrap();
    assert_eq!(
        c.create_market(b, q, amount(7), amount(1), amount(7)).unwrap_err(),
        ContractError::MarketExists
    );
    assert_eq!(
        c.create_market(b, q, amount(2), amount(3), amount(6)).unwrap_err(),
        ContractError::MarketExists
    );
    assert_eq!(
        c.create_market(b, q, amount(0), amount(3), amount(6)).unwrap_err(),
        ContractError::ExchangeRateCanNotBeZero
    );
    assert_eq!(c.fetch_current_market_index().unwrap(), amount(2));
    assert_eq!(c.fetch_market_by_tokens(b, q).unwrap(), (b, q, amount(2)));
}

#[test]
fn reversed_pair_is_a_separate_market() {
    let mut c = opened();
    let (a, b) = (token(1), token(2));
    c.create_market(a, b, amount(2), amount(3), amount(6)).unwrap();
    assert_eq!(c.fetch_market_id(b, a).unwrap(), amount(0));
    c.create_market(b, a, amount(4), amount(1), amount(4)).unwrap();
    assert_eq!(c.fetch_market_id(b, a).unwrap(), amount(2));
    assert_eq!(c.fetch_exchange_rate(a, b).unwrap(), amount(2));
    assert_eq!(c.fetch_exchange_rate(b, a).unwrap(), amount(4));
}

#[test]
fn swap_round_trip_and_truncation() {
    let mut c = opened();
    let (b, q) = (token(1), token(2));
    c.create_market(b, q, amount(7), amount(1), amount(7)).unwrap();
    let fx = c.swap_base_token_for_quote_token(b, q, amount(13)).unwrap();
    assert_eq!(fx.transfers[1], Transfer::ToCaller { token: q, amount: amount(91) });
    let fx = c.swap_quote_token_for_base_token(b, q, amount(91)).unwrap();
    assert_eq!(fx.transfers[1], Transfer::ToCaller { token: b, amount: amount(13) });
    // 95 / 7 rounds down to 13, so 4 quote units are lost going back and forth.
    let fx = c.swap_quote_token_for_base_token(b, q, amount(95)).unwrap();
    assert_eq!(fx.transfers[1], Transfer::ToCaller { token: b, amount: amount(13) });
    let fx = c.swap_quote_token_for_base_token(b, q, amount(6)).unwrap();
    assert_eq!(fx.transfers[1], Transfer::ToCaller { token: b, amount: amount(0) });
}

#[test]
fn market_by_id_bounds() {
    let mut c = Contract::new();
    assert_eq!(c.fetch_market_by_id(0).unwrap_err(), ContractError::OutOfBoundIndex);
    c.initialize().unwrap();
    assert_eq!(c.fetch_market_by_id(0).unwrap_err(), ContractError::OutOfBoundIndex);
    assert_eq!(c.fetch_market_by_id(1).unwrap_err(), ContractError::OutOfBoundIndex);
    c.create_market(token(1), token(2), amount(2), amount(3), amount(6)).unwrap();
    c.create_market(token(3), token(4), amount(5), amount(1), amount(5)).unwrap();
    assert_eq!(c.fetch_current_market_index().unwrap(), amount(3));
    assert_eq!(c.fetch_market_by_id(0).unwrap_err(), ContractError::OutOfBoundIndex);
    assert_eq!(c.fetch_market_by_id(3).unwrap_err(), ContractError::OutOfBoundIndex);
    assert_eq!(c.fetch_market_by_id(u64::MAX).unwrap_err(), ContractError::OutOfBoundIndex);
    assert_eq!(c.fetch_market_by_id(2).unwrap(), (token(3), token(4), amount(5)));
    assert_eq!(c.fetch_market_by_id(1).unwrap(), (token(1), token(2), amount(2)));
}

#[test]
fn zero_inputs_are_refused() {
    let mut c = opened();
    let (b, q, z) = (token(1), token(2), Address::zero());
    c.create_market(b, q, amount(2), amount(3), amount(6)).unwrap();
    let e = |r: Result<(Uint256, fixed_rate_exchange::Effects), ContractError>| r.unwrap_err();
    assert_eq!(e(c.create_market(token(5), token(6), amount(0), amount(3), amount(6))), ContractError::ExchangeRateCanNotBeZero);
    assert_eq!(e(c.create_market(z, z, amount(0), amount(3), amount(6))), ContractError::ExchangeRateCanNotBeZero);
    assert_eq!(e(c.create_market(z, q, amount(2), amount(3), amount(6))), ContractError::BaseTokenCanNotBeZeroAddress);
    assert_eq!(e(c.create_market(b, z, amount(2), amount(3), amount(6))), ContractError::QuoteTokenCanNotBeZeroAddress);
    assert_eq!(c.swap_base_token_for_quote_token(b, q, amount(0)).unwrap_err(), ContractError::AmountCanNotBeZero);
    assert_eq!(c.swap_base_token_for_quote_token(z, q, amount(1)).unwrap_err(), ContractError::BaseTokenCanNotBeZeroAddress);
    assert_eq!(c.swap_base_token_for_quote_token(b, z, amount(1)).unwrap_err(), ContractError::QuoteTokenCanNotBeZeroAddress);
    assert_eq!(c.swap_quote_token_for_base_token(b, q, amount(0)).unwrap_err(), ContractError::AmountCanNotBeZero);
    assert_eq!(c.swap_quote_token_for_base_token(z, q, amount(1)).unwrap_err(), ContractError::BaseTokenCanNotBeZeroAddress);
    assert_eq!(c.swap_quote_token_for_base_token(b, z, amount(1)).unwrap_err(), ContractError::QuoteTokenCanNotBeZeroAddress);
    assert_eq!(c.fetch_current_market_index().unwrap(), amount(2));
    assert_eq!(c.fetch_market_by_id(1).unwrap(), (b, q, amount(2)));
    assert_eq!(c.fetch_exchange_rate(z, q).unwrap_err(), ContractError::BaseTokenCanNotBeZeroAddress);
    assert_eq!(c.fetch_market_id(b, z).unwrap_err(), ContractError::QuoteTokenCanNotBeZeroAddress);
    assert_eq!(c.fetch_market_by_tokens(z, z).unwrap_err(), ContractError::BaseTokenCanNotBeZeroAddress);
}

#[test]
fn second_initialization_is_refused() {
    let mut c = Contract::new();
    assert_eq!(c.fetch_initialization_status().unwrap(), false);
    assert_eq!(c.fetch_current_market_index().unwrap(), amount(0));
    c.initialize().unwrap();
    assert_eq!(c.fetch_initialization_status().unwrap(), true);
    assert_eq!(c.fetch_current_market_index().unwrap(), amount(1));
    assert_eq!(c.initialize().unwrap_err(), ContractError::AlreadyInitialized);
    assert_eq!(c.fetch_current_market_index().unwrap(), amount(1));
}

#[test]
fn inconsistent_amounts_are_refused() {
    let mut c = opened();
    let (b, q) = (token(1), token(2));
    assert_eq!(
        c.create_market(b, q, amount(3), amount(5), amount(6)).unwrap_err(),
        ContractError::IncorrectBaseAmount
    );
    // 7 / 3 rounds down to 2, but 2 * 3 is 6, not 7.
    assert_eq!(
        c.create_market(b, q, amount(3), amount(2), amount(7)).unwrap_err(),
        ContractError::IncorrectQuoteAmount
    );
    assert_eq!(c.fetch_market_id(b, q).unwrap(), amount(0));
    assert_eq!(c.fetch_current_market_index().unwrap(), amount(1));
}

#[test]
fn swap_overflow_is_refused() {
    let mut c = opened();
    let (b, q) = (token(1), token(2));
    let rate = Uint256::from_limbs([0, 0, 0, 1 << 20]);
    c.create_market(b, q, rate, amount(1), rate).unwrap();
    assert_eq!(
        c.swap_base_token_for_quote_token(b, q, amount(1 << 44)).unwrap_err(),
        ContractError::MultiplicationOverflow
    );
    let fx = c.swap_base_token_for_quote_token(b, q, amount(1 << 43)).unwrap();
    assert_eq!(
        fx.transfers[1],
        Transfer::ToCaller { token: q, amount: Uint256::from_limbs([0, 0, 0, 1 << 63]) }
    );
    let fx = c.swap_quote_token_for_base_token(b, q, Uint256::from_limbs([5, 0, 0, 1 << 21])).unwrap();
    assert_eq!(fx.transfers[1], Transfer::ToCaller { token: b, amount: amount(2) });
}

#[test]
fn swaps_on_a_pair_without_market() {
    let mut c = opened();
    let (b, q) = (token(1), token(2));
    let fx = c.swap_base_token_for_quote_token(b, q, amount(5)).unwrap();
    assert_eq!(
        fx.transfers,
        vec![
            Transfer::FromCaller { token: Address::zero(), amount: amount(5) },
            Transfer::ToCaller { token: Address::zero(), amount: amount(0) },
        ]
    );
    assert_eq!(
        c.swap_quote_token_for_base_token(b, q, amount(5)).unwrap_err(),
        ContractError::DivisionUnderflow
    );
    assert_eq!(c.fetch_exchange_rate(b, q).unwrap(), amount(0));
    assert_eq!(
        c.fetch_market_by_tokens(b, q).unwrap(),
        (Address::zero(), Address::zero(), amount(0))
    );
}

#[test]
fn wide_amounts_compare_by_value() {
    let big = Uint256::from_u128(u128::MAX);
    assert_eq!(big.as_limbs(), [u64::MAX, u64::MAX, 0, 0]);
    assert_eq!(Uint256::from_u64(7), Uint256::from_limbs([7, 0, 0, 0]));
    assert_ne!(Uint256::from_limbs([0, 1, 0, 0]), Uint256::from_limbs([1, 0, 0, 0]));
    assert!(Uint256::zero().is_zero());
    assert!(!Uint256::from_limbs([0, 0, 0, 1]).is_zero());
    assert!(Address::zero().is_zero());
    assert!(!Address::new(1, 0).is_zero());
}
