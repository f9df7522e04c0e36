//! One wager from request to end, against a world whose answers are known
//! beforehand.
//!
//! A live driver learns one answer at a time: it moves lamports, reads the
//! clock, and reports to [`flip_coin`]. [`settle`] drives the same machine
//! from a record of those answers. [`Settlement::settle`] says in closed form
//! what a wager comes to; that the machine, driven in turn, arrives there is
//! what the verification of [`settle`] shows.

use vstd::prelude::*;
use crate::clock::ClockReading;
use crate::error::CoinFlipError;
use crate::settlement::{
    bet_in_bounds, choice_in_range, flip_coin, Action, Event, FlipCoin, FlipResult, Settlement, Stage,
};

verus! {

/// What the world answers in the course of one settlement.
#[derive(Clone, Copy, Debug, PartialEq, Eq)]
pub struct Answers {
    /// Whether the stake can be moved into the pool.
    pub escrow_ok: bool,
    /// What the runtime clock reads once the stake is in, if it can be read.
    pub clock: Option<ClockReading>,
    /// Whether the winnings can be moved out of the pool.
    pub payout_ok: bool,
}

/// How a settlement ended and what was moved on its way.
#[derive(Clone, Copy, Debug, PartialEq, Eq)]
pub struct Receipt {
    /// The last answer of the machine.
    pub outcome: Action,
    /// Lamports that went from the caller into the pool.
    pub collected: u64,
    /// Lamports that went from the pool to the caller.
    pub paid: u64,
}

impl Receipt {
    /// The receipt of a settlement that ended before anything was moved.
    pub open spec fn untouched(outcome: Action) -> Receipt {
        Receipt { outcome, collected: 0, paid: 0 }
    }

    /// The receipt of a settlement that took the stake and paid nothing.
    pub open spec fn staked(outcome: Action, bet_amount: u64) -> Receipt {
        Receipt { outcome, collected: bet_amount, paid: 0 }
    }
}

impl Settlement {
    /// What the wager of `bet_amount` on `choice` comes to in a world that
    /// gives `answers`: the settlement afterwards, and the receipt.
    ///
    /// The checks come in this order, and the first that fails ends the
    /// wager: the stake window, the choice, the escrow transfer, the clock,
    /// the reserve of a winner's pool, the payout transfer. Once the stake
    /// is in the pool it stays there, whatever fails later. The wager is
    /// counted only where it is settled.
    pub open spec fn settle(self, bet_amount: u64, choice: u8, answers: Answers) -> (Settlement, Receipt) {
        let pooled = self.ledger.apply(0, 0, bet_amount as int);
        if self.stage != Stage::Ready {
            (self, Receipt::untouched(Action::Unexpected))
        } else if !bet_in_bounds(bet_amount) {
            (self, Receipt::untouched(Action::Failed(CoinFlipError::InvalidBetAmount)))
        } else if !choice_in_range(choice) {
            (self, Receipt::untouched(Action::Failed(CoinFlipError::InvalidChoice)))
        } else if !answers.escrow_ok {
            (self, Receipt::untouched(Action::Failed(CoinFlipError::EscrowTransferFailed)))
        } else if answers.clock is None {
            (
                Settlement::ready(pooled),
                Receipt::staked(Action::Failed(CoinFlipError::ClockUnavailable), bet_amount),
            )
        } else if answers.clock->0.face() != choice {
            (
                Settlement::ready(pooled.apply(1, bet_amount as nat, 0)),
                Receipt::staked(
                    Action::Settled(
                        FlipResult {
                            choice,
                            result: answers.clock->0.face() as u8,
                            user_won: false,
                            amount_moved: bet_amount,
                        },
                    ),
                    bet_amount,
                ),
            )
        } else if !pooled.covers(-2 * bet_amount) {
            (
                Settlement::ready(pooled),
                Receipt::staked(Action::Failed(CoinFlipError::InsufficientHouseBalance), bet_amount),
            )
        } else if !answers.payout_ok {
            (
                Settlement::ready(pooled),
                Receipt::staked(Action::Failed(CoinFlipError::PayoutTransferFailed), bet_amount),
            )
        } else {
            (
                Settlement::ready(pooled.apply(1, bet_amount as nat, -2 * bet_amount)),
                Receipt {
                    outcome: Action::Settled(
                        FlipResult {
                            choice,
                            result: choice,
                            user_won: true,
                            amount_moved: (2 * bet_amount) as u64,
                        },
                    ),
                    collected: bet_amount,
                    paid: (2 * bet_amount) as u64,
                },
            )
        }
    }

    /// Whether the counters of the ledger can hold the wager at every point
    /// of its settlement: with the stake pooled, and at the end.
    pub open spec fn has_room_to_settle(self, bet_amount: u64, choice: u8, answers: Answers) -> bool {
        let (after, receipt) = self.settle(bet_amount, choice, answers);
        &&& self.ledger.house_balance + receipt.collected <= u64::MAX
        &&& after.ledger.representable()
    }
}

/// Settles the wager of `bet_amount` on `choice` by driving the machine with
/// the answers given: each transfer that the machine asks for succeeds or
/// fails as `answers` says, and the clock reads what `answers` holds.
///
/// The counters of the ledger are 64 bits wide and must have room for the
/// wager: see [`Settlement::has_room_to_settle`].
pub fn settle(ctx: &mut FlipCoin, bet_amount: u64, choice: u8, answers: &Answers) -> (receipt: Receipt)
    requires
        old(ctx)@.ledger.representable() ==> old(ctx)@.has_room_to_settle(bet_amount, choice, *answers),
    ensures
        (final(ctx)@, receipt) == old(ctx)@.settle(bet_amount, choice, *answers),
{
    let asked = flip_coin(ctx, Event::Wager { bet_amount, choice });
    let amount = match asked {
        Action::CollectStake { amount } => amount,
        _ => { return Receipt { outcome: asked, collected: 0, paid: 0 }; },
    };
    if !answers.escrow_ok {
        let outcome = flip_coin(ctx, Event::StakeRefused);
        return Receipt { outcome, collected: 0, paid: 0 };
    }
    let resolved = flip_coin(ctx, Event::StakeCollected { clock: answers.clock });
    let winnings = match resolved {
        Action::PayWinnings { amount } => amount,
        _ => { return Receipt { outcome: resolved, collected: amount, paid: 0 }; },
    };
    if !answers.payout_ok {
        let outcome = flip_coin(ctx, Event::WinningsRefused);
        return Receipt { outcome, collected: amount, paid: 0 };
    }
    let outcome = flip_coin(ctx, Event::WinningsPaid);
    Receipt { outcome, collected: amount, paid: winnings }
}

} // verus!
