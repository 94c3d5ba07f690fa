//! What the host must carry out after a successful operation: token
//! movements between the caller and the registry's custody, and notifications.
use crate::address::Address;
use crate::uint::Uint256;
use vstd::prelude::*;

verus! {

/// A movement of tokens between the caller and the registry's custody.
#[derive(Clone, Copy, Debug, PartialEq, Eq)]
pub enum Transfer {
    /// Pull `amount` of `token` from the caller into custody; the caller must
    /// have authorised it beforehand.
    FromCaller { token: Address, amount: Uint256 },
    /// Pay `amount` of `token` out of custody to the caller.
    ToCaller { token: Address, amount: Uint256 },
}

/// An append-only record of a successful operation, for outside observers.
#[derive(Clone, Copy, Debug, PartialEq, Eq)]
pub enum Notification {
    Initialized,
    MarketCreated { base_token: Address, quote_token: Address, exchange_rate: Uint256 },
    SwappedBaseTokenForQuoteToken {
        base_token: Address,
        quote_token: Address,
        amount_in: Uint256,
        amount_out: Uint256,
    },
}

/// The transfers to perform, in order, then the notifications to emit. If a
/// transfer fails the host must discard the whole operation.
#[derive(Debug)]
pub struct Effects {
    pub transfers: Vec<Transfer>,
    pub notifications: Vec<Notification>,
}

} // verus!
