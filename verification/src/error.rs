//! The reasons for which a request is turned down.

use vstd::prelude::*;

verus! {

/// Why the creation of the ledger or the settlement of a wager failed.
#[derive(Clone, Copy, Debug, PartialEq, Eq, Structural)]
pub enum CoinFlipError {
    /// The stake lies outside `MIN_BET ..= MAX_BET`.
    InvalidBetAmount,
    /// The choice is neither heads (0) nor tails (1).
    InvalidChoice,
    /// The caller won, but the pool holds less than twice the stake.
    InsufficientHouseBalance,
    /// The stake could not be moved from the caller into the pool.
    EscrowTransferFailed,
    /// The winnings could not be moved from the pool to the caller.
    PayoutTransferFailed,
    /// The runtime did not hand out its clock.
    ClockUnavailable,
    /// A ledger already exists where a new one was to be created.
    AlreadyInitialized,
}

impl CoinFlipError {
    /// The sentence that tells a caller what went wrong.
    pub open spec fn message_text(self) -> Seq<char> {
        match self {
            CoinFlipError::InvalidBetAmount => "Invalid bet amount. Must be between 0.1-1 SOL"@,
            CoinFlipError::InvalidChoice => "Invalid choice. Must be 0 (heads) or 1 (tails)"@,
            CoinFlipError::InsufficientHouseBalance => "Insufficient house balance to pay winnings"@,
            CoinFlipError::EscrowTransferFailed => "Stake could not be moved into the pool"@,
            CoinFlipError::PayoutTransferFailed => "Winnings could not be moved out of the pool"@,
            CoinFlipError::ClockUnavailable => "Runtime clock is not available"@,
            CoinFlipError::AlreadyInitialized => "Game state is already initialized"@,
        }
    }

    /// Gives [`Self::message_text`].
    pub fn message(&self) -> (text: &'static str)
        ensures
            text@ == self.message_text(),
    {
        match self {
            CoinFlipError::InvalidBetAmount => "Invalid bet amount. Must be between 0.1-1 SOL",
            CoinFlipError::InvalidChoice => "Invalid choice. Must be 0 (heads) or 1 (tails)",
            CoinFlipError::InsufficientHouseBalance => "Insufficient house balance to pay winnings",
            CoinFlipError::EscrowTransferFailed => "Stake could not be moved into the pool",
            CoinFlipError::PayoutTransferFailed => "Winnings could not be moved out of the pool",
            CoinFlipError::ClockUnavailable => "Runtime clock is not available",
            CoinFlipError::AlreadyInitialized => "Game state is already initialized",
        }
    }
}

} // verus!
