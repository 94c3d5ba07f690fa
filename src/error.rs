//! The ways an operation on the registry can fail.
use vstd::prelude::*;

verus! {

/// Why an operation was refused. A refused operation changes nothing.
#[derive(Clone, Copy, Debug, PartialEq, Eq, Structural)]
pub enum ContractError {
    AlreadyInitialized,
    MarketExists,
    BaseTokenCanNotBeZeroAddress,
    QuoteTokenCanNotBeZeroAddress,
    ExchangeRateCanNotBeZero,
    AmountCanNotBeZero,
    IncorrectBaseAmount,
    IncorrectQuoteAmount,
    DivisionUnderflow,
    MultiplicationOverflow,
    OutOfBoundIndex,
}

} // verus!
