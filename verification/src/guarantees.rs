//! What holds of every settlement.
//!
//! Each lemma speaks of [`Settlement::settle`], the closed form that
//! [`settle`] is verified against, or of [`Settlement::step`], the single
//! move that [`flip_coin`] is verified against.
//!
//! [`settle`]: crate::driver::settle
//! [`flip_coin`]: crate::settlement::flip_coin

use vstd::prelude::*;
use crate::clock::ClockReading;
use crate::driver::{Answers, Receipt};
use crate::error::CoinFlipError;
use crate::settlement::{bet_in_bounds, choice_in_range, Action, Event, FlipResult, Settlement, Stage};

verus! {

/// A stake outside the window is refused as an invalid bet amount, whatever
/// the choice and whatever the world would have answered. The ledger stays
/// as it was and nothing is moved.
pub proof fn lemma_stake_outside_window_is_refused(s: Settlement, bet_amount: u64, choice: u8, answers: Answers)
    requires
        s.stage == Stage::Ready,
        !bet_in_bounds(bet_amount),
    ensures
        s.settle(bet_amount, choice, answers) == (
            s,
            Receipt::untouched(Action::Failed(CoinFlipError::InvalidBetAmount)),
        ),
        s.step(Event::Wager { bet_amount, choice }) == (s, Action::Failed(CoinFlipError::InvalidBetAmount)),
{
}

/// A choice that names no face is refused as an invalid choice, provided
/// that the stake is inside the window: the stake is looked at first. The
/// ledger stays as it was and nothing is moved.
pub proof fn lemma_choice_outside_faces_is_refused(s: Settlement, bet_amount: u64, choice: u8, answers: Answers)
    requires
        s.stage == Stage::Ready,
        bet_in_bounds(bet_amount),
        !choice_in_range(choice),
    ensures
        s.settle(bet_amount, choice, answers) == (
            s,
            Receipt::untouched(Action::Failed(CoinFlipError::InvalidChoice)),
        ),
        s.step(Event::Wager { bet_amount, choice }) == (s, Action::Failed(CoinFlipError::InvalidChoice)),
{
}

/// A valid wager whose stake arrives and whose face the clock does not show
/// is settled as lost: the reserve grows by the stake, the volume grows by
/// the stake, one more wager is counted, and the caller is paid nothing.
pub proof fn lemma_loss_keeps_the_stake(
    s: Settlement,
    bet_amount: u64,
    choice: u8,
    answers: Answers,
    reading: ClockReading,
)
    requires
        s.stage == Stage::Ready,
        bet_in_bounds(bet_amount),
        choice_in_range(choice),
        answers.escrow_ok,
        answers.clock == Some(reading),
        reading.face() != choice,
    ensures
        ({
            let (after, receipt) = s.settle(bet_amount, choice, answers);
            &&& receipt.outcome == Action::Settled(
                FlipResult { choice, result: reading.face() as u8, user_won: false, amount_moved: bet_amount },
            )
            &&& receipt.collected == bet_amount
            &&& receipt.paid == 0
            &&& after.stage == Stage::Ready
            &&& after.ledger.authority == s.ledger.authority
            &&& after.ledger.house_balance == s.ledger.house_balance + bet_amount
            &&& after.ledger.total_volume == s.ledger.total_volume + bet_amount
            &&& after.ledger.total_games == s.ledger.total_games + 1
        }),
{
}

/// A valid wager whose stake arrives, whose face the clock shows, whose
/// pool holds twice the stake once the stake is in, and whose winnings
/// leave the pool is settled as won: the reserve ends at what it was, plus
/// the stake, minus twice the stake; the volume grows by the stake; one
/// more wager is counted; and the caller ends with the stake more than
/// before.
pub proof fn lemma_win_pays_twice_the_stake(
    s: Settlement,
    bet_amount: u64,
    choice: u8,
    answers: Answers,
    reading: ClockReading,
)
    requires
        s.stage == Stage::Ready,
        bet_in_bounds(bet_amount),
        choice_in_range(choice),
        answers.escrow_ok,
        answers.clock == Some(reading),
        reading.face() == choice,
        s.ledger.house_balance + bet_amount >= 2 * bet_amount,
        answers.payout_ok,
    ensures
        ({
            let (after, receipt) = s.settle(bet_amount, choice, answers);
            &&& receipt.outcome == Action::Settled(
                FlipResult { choice, result: choice, user_won: true, amount_moved: (2 * bet_amount) as u64 },
            )
            &&& receipt.paid - receipt.collected == bet_amount
            &&& after.stage == Stage::Ready
            &&& after.ledger.authority == s.ledger.authority
            &&& after.ledger.house_balance == s.ledger.house_balance + bet_amount - 2 * bet_amount
            &&& after.ledger.total_volume == s.ledger.total_volume + bet_amount
            &&& after.ledger.total_games == s.ledger.total_games + 1
        }),
{
}

/// A valid wager whose stake arrives and whose face the clock shows, but
/// whose pool holds less than twice the stake even with the stake in, fails
/// for want of reserve. The stake stays in the pool: the reserve is the
/// old one plus the stake. Nothing is paid and the wager is not counted.
pub proof fn lemma_short_reserve_keeps_the_stake(
    s: Settlement,
    bet_amount: u64,
    choice: u8,
    answers: Answers,
    reading: ClockReading,
)
    requires
        s.stage == Stage::Ready,
        bet_in_bounds(bet_amount),
        choice_in_range(choice),
        answers.escrow_ok,
        answers.clock == Some(reading),
        reading.face() == choice,
        s.ledger.house_balance + bet_amount < 2 * bet_amount,
    ensures
        ({
            let (after, receipt) = s.settle(bet_amount, choice, answers);
            &&& receipt == Receipt::staked(Action::Failed(CoinFlipError::InsufficientHouseBalance), bet_amount)
            &&& after == Settlement::ready(s.ledger.apply(0, 0, bet_amount as int))
            &&& after.ledger.house_balance == s.ledger.house_balance + bet_amount
            &&& after.ledger.total_volume == s.ledger.total_volume
            &&& after.ledger.total_games == s.ledger.total_games
        }),
{
}

/// A wager is counted exactly once if it is settled, won or lost, and not
/// at all if it fails; the volume grows by its stake in the first case and
/// stays in the second.
pub proof fn lemma_settled_wagers_are_counted_once(s: Settlement, bet_amount: u64, choice: u8, answers: Answers)
    requires
        s.stage == Stage::Ready,
    ensures
        ({
            let (after, receipt) = s.settle(bet_amount, choice, answers);
            if receipt.outcome is Settled {
                &&& after.ledger.total_games == s.ledger.total_games + 1
                &&& after.ledger.total_volume == s.ledger.total_volume + bet_amount
            } else {
                &&& receipt.outcome is Failed
                &&& after.ledger.total_games == s.ledger.total_games
                &&& after.ledger.total_volume == s.ledger.total_volume
            }
        }),
{
}

/// What a settled wager reports is what happened: the face reported is a
/// face, the caller won exactly if it is the chosen one, a loser's stake
/// stays in the reserve and nothing is paid, and a winner's reserve gives up
/// twice the stake, which leaves the caller with the stake more than before.
pub proof fn lemma_report_matches_the_ledger(s: Settlement, bet_amount: u64, choice: u8, answers: Answers)
    requires
        s.stage == Stage::Ready,
    ensures
        ({
            let (after, receipt) = s.settle(bet_amount, choice, answers);
            receipt.outcome matches Action::Settled(report) ==> {
                &&& report.choice == choice
                &&& choice_in_range(report.result)
                &&& answers.clock matches Some(reading) && reading.face() == report.result
                &&& report.user_won == (report.result == choice)
                &&& receipt.collected == bet_amount
                &&& if report.user_won {
                    &&& report.amount_moved == 2 * bet_amount
                    &&& receipt.paid - receipt.collected == bet_amount
                    &&& after.ledger.house_balance == s.ledger.house_balance + bet_amount - 2 * bet_amount
                } else {
                    &&& report.amount_moved == bet_amount
                    &&& receipt.paid == 0
                    &&& after.ledger.house_balance == s.ledger.house_balance + bet_amount
                }
            }
        }),
{
}

/// The reserve follows the lamports: after any settlement it is what it
/// was, plus what came in from the caller, minus what went out to the
/// caller. The authority is never touched, and no wager is left in flight.
pub proof fn lemma_reserve_follows_the_transfers(s: Settlement, bet_amount: u64, choice: u8, answers: Answers)
    requires
        s.stage == Stage::Ready,
    ensures
        ({
            let (after, receipt) = s.settle(bet_amount, choice, answers);
            &&& after.ledger.house_balance == s.ledger.house_balance + receipt.collected - receipt.paid
            &&& after.ledger.authority == s.ledger.authority
            &&& after.stage == Stage::Ready
        }),
{
}

/// The machine never asks for winnings that the reserve does not cover, and
/// every move leaves a well-formed settlement well-formed.
pub proof fn lemma_winnings_are_covered(s: Settlement, event: Event)
    requires
        s.wf(),
    ensures
        s.step(event).0.wf(),
        s.step(event).1 matches Action::PayWinnings { amount } ==> s.step(event).0.ledger.house_balance >= amount,
{
}

/// No move of the machine lowers the count of wagers or the volume, and
/// none touches the authority.
pub proof fn lemma_counters_never_fall(s: Settlement, event: Event)
    ensures
        s.step(event).0.ledger.total_games >= s.ledger.total_games,
        s.step(event).0.ledger.total_volume >= s.ledger.total_volume,
        s.step(event).0.ledger.authority == s.ledger.authority,
{
}

} // verus!
