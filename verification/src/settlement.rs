//! The settlement of one wager, as a machine that is driven from outside.
//!
//! A settlement needs lamports moved twice at most: the stake into the pool,
//! and the winnings out of it. The machine does not move anything. It answers
//! each [`Event`] with an [`Action`]: a transfer that the driver is to carry
//! out, or the end of the settlement. The driver reports how the transfer
//! went with the next event.

use vstd::prelude::*;
use crate::clock::{read_clock, ClockReading, HEADS, TAILS};
use crate::error::CoinFlipError;
use crate::ledger::{GameState, Ledger};

verus! {

/// Smallest stake that a wager may carry, in lamports.
pub const MIN_BET: u64 = 100_000_000;

/// Largest stake that a wager may carry, in lamports.
pub const MAX_BET: u64 = 1_000_000_000;

/// Whether a stake lies inside the accepted window.
pub open spec fn bet_in_bounds(bet_amount: u64) -> bool {
    MIN_BET <= bet_amount <= MAX_BET
}

/// Whether a choice names one of the two faces.
pub open spec fn choice_in_range(choice: u8) -> bool {
    choice == HEADS || choice == TAILS
}

/// How a wager ended for the caller.
#[derive(Clone, Copy, Debug, PartialEq, Eq, Structural)]
pub struct FlipResult {
    /// The face that the caller chose.
    pub choice: u8,
    /// The face that the clock decided.
    pub result: u8,
    /// Whether the two agree.
    pub user_won: bool,
    /// The winnings paid to a winner, the stake lost by a loser.
    pub amount_moved: u64,
}

/// Where a settlement stands.
#[derive(Clone, Copy, Debug, PartialEq, Eq, Structural)]
pub enum Stage {
    /// No wager is in flight.
    Ready,
    /// A wager was accepted and its stake asked for.
    AwaitingEscrow { bet_amount: u64, choice: u8 },
    /// The caller won and the winnings were asked for.
    AwaitingPayout { bet_amount: u64, choice: u8 },
}

/// What the driver tells the machine.
#[derive(Clone, Copy, Debug, PartialEq, Eq)]
pub enum Event {
    /// A caller stakes `bet_amount` lamports on the face `choice`.
    Wager { bet_amount: u64, choice: u8 },
    /// The stake has arrived in the pool. `clock` is the runtime clock as
    /// read right after, `None` where it could not be read.
    StakeCollected { clock: Option<ClockReading> },
    /// The stake could not be moved.
    StakeRefused,
    /// The winnings have left the pool.
    WinningsPaid,
    /// The winnings could not be moved.
    WinningsRefused,
}

/// What the machine tells the driver.
#[derive(Clone, Copy, Debug, PartialEq, Eq)]
pub enum Action {
    /// Move `amount` lamports from the caller to the pool.
    CollectStake { amount: u64 },
    /// Move `amount` lamports from the pool to the caller, on the pool's own
    /// authority.
    PayWinnings { amount: u64 },
    /// The wager is settled.
    Settled(FlipResult),
    /// The wager is over without a settlement.
    Failed(CoinFlipError),
    /// The event does not belong to the current stage. Nothing has changed.
    Unexpected,
}

/// A settlement as mathematics sees it.
pub struct Settlement {
    pub ledger: Ledger,
    pub stage: Stage,
}

impl Settlement {
    /// The settlement over `ledger` with no wager in flight.
    pub open spec fn ready(ledger: Ledger) -> Settlement {
        Settlement { ledger, stage: Stage::Ready }
    }

    /// A stage holds an accepted wager only, and winnings are asked for only
    /// where the pool covers them.
    pub open spec fn wf(self) -> bool {
        match self.stage {
            Stage::Ready => true,
            Stage::AwaitingEscrow { bet_amount, choice } => {
                bet_in_bounds(bet_amount) && choice_in_range(choice)
            },
            Stage::AwaitingPayout { bet_amount, choice } => {
                &&& bet_in_bounds(bet_amount)
                &&& choice_in_range(choice)
                &&& self.ledger.covers(-2 * bet_amount)
            },
        }
    }

    /// The answer to a wager that arrives while none is in flight.
    pub open spec fn on_wager(self, bet_amount: u64, choice: u8) -> (Settlement, Action) {
        if !bet_in_bounds(bet_amount) {
            (self, Action::Failed(CoinFlipError::InvalidBetAmount))
        } else if !choice_in_range(choice) {
            (self, Action::Failed(CoinFlipError::InvalidChoice))
        } else {
            (
                Settlement { ledger: self.ledger, stage: Stage::AwaitingEscrow { bet_amount, choice } },
                Action::CollectStake { amount: bet_amount },
            )
        }
    }

    /// The answer to the arrival of the stake. The stake is pooled whatever
    /// follows. A loser's wager is settled at once. A winner's wager goes on
    /// to the payout if the pool, stake included, holds twice the stake;
    /// else it fails, and the stake stays pooled.
    pub open spec fn on_stake_collected(self, bet_amount: u64, choice: u8, clock: Option<ClockReading>) -> (
        Settlement,
        Action,
    ) {
        let pooled = self.ledger.apply(0, 0, bet_amount as int);
        match clock {
            None => (Settlement::ready(pooled), Action::Failed(CoinFlipError::ClockUnavailable)),
            Some(reading) => {
                if reading.face() != choice {
                    (
                        Settlement::ready(pooled.apply(1, bet_amount as nat, 0)),
                        Action::Settled(
                            FlipResult {
                                choice,
                                result: reading.face() as u8,
                                user_won: false,
                                amount_moved: bet_amount,
                            },
                        ),
                    )
                } else if !pooled.covers(-2 * bet_amount) {
                    (Settlement::ready(pooled), Action::Failed(CoinFlipError::InsufficientHouseBalance))
                } else {
                    (
                        Settlement { ledger: pooled, stage: Stage::AwaitingPayout { bet_amount, choice } },
                        Action::PayWinnings { amount: (2 * bet_amount) as u64 },
                    )
                }
            },
        }
    }

    /// The answer to the departure of the winnings: they leave the reserve,
    /// and the wager is counted.
    pub open spec fn on_winnings_paid(self, bet_amount: u64, choice: u8) -> (Settlement, Action) {
        (
            Settlement::ready(self.ledger.apply(1, bet_amount as nat, -2 * bet_amount)),
            Action::Settled(
                FlipResult { choice, result: choice, user_won: true, amount_moved: (2 * bet_amount) as u64 },
            ),
        )
    }

    /// The settlement after `event`, and the answer to it.
    pub open spec fn step(self, event: Event) -> (Settlement, Action) {
        match (self.stage, event) {
            (Stage::Ready, Event::Wager { bet_amount, choice }) => self.on_wager(bet_amount, choice),
            (Stage::AwaitingEscrow { bet_amount, choice }, Event::StakeCollected { clock }) => {
                self.on_stake_collected(bet_amount, choice, clock)
            },
            (Stage::AwaitingEscrow { .. }, Event::StakeRefused) => {
                (Settlement::ready(self.ledger), Action::Failed(CoinFlipError::EscrowTransferFailed))
            },
            (Stage::AwaitingPayout { bet_amount, choice }, Event::WinningsPaid) => {
                self.on_winnings_paid(bet_amount, choice)
            },
            (Stage::AwaitingPayout { .. }, Event::WinningsRefused) => {
                (Settlement::ready(self.ledger), Action::Failed(CoinFlipError::PayoutTransferFailed))
            },
            _ => (self, Action::Unexpected),
        }
    }
}

/// What the settlement of wagers works on: the ledger, and the stage of the
/// wager in flight.
#[derive(Clone, Copy, Debug, PartialEq, Eq)]
pub struct FlipCoin {
    game_state: GameState,
    stage: Stage,
}

impl View for FlipCoin {
    type V = Settlement;

    closed spec fn view(&self) -> Settlement {
        Settlement { ledger: self.game_state@, stage: self.stage }
    }
}

impl FlipCoin {
    #[verifier::type_invariant]
    spec fn inv(self) -> bool {
        self@.wf()
    }

    /// A settlement over `game_state` with no wager in flight.
    pub fn new(game_state: GameState) -> (ctx: FlipCoin)
        ensures
            ctx@ == Settlement::ready(game_state@),
    {
        FlipCoin { game_state, stage: Stage::Ready }
    }

    /// The ledger as it stands.
    pub fn game_state(&self) -> (game_state: GameState)
        ensures
            game_state@ == self@.ledger,
    {
        self.game_state
    }

    /// The stage of the wager in flight.
    pub fn stage(&self) -> (stage: Stage)
        ensures
            stage == self@.stage,
    {
        self.stage
    }

    /// Whether the counters of the ledger can hold what `event` leads to.
    pub fn has_room_for(&self, event: &Event) -> (ok: bool)
        ensures
            ok == self@.step(*event).0.ledger.representable(),
    {
        proof {
            use_type_invariant(self);
        }
        let ledger = &self.game_state;
        match (self.stage, *event) {
            (Stage::AwaitingEscrow { bet_amount, choice }, Event::StakeCollected { clock }) => {
                let lost = match clock {
                    Some(reading) => reading.coin_face() != choice,
                    None => false,
                };
                ledger.house_balance <= u64::MAX - bet_amount && (!lost || (ledger.total_games < u64::MAX
                    && ledger.total_volume <= u64::MAX - bet_amount))
            },
            (Stage::AwaitingPayout { bet_amount, .. }, Event::WinningsPaid) => {
                ledger.total_games < u64::MAX && ledger.total_volume <= u64::MAX - bet_amount
            },
            _ => true,
        }
    }
}

impl Event {
    /// The event that follows the arrival of the stake: reads the runtime
    /// clock and reports what it gave.
    pub fn stake_collected() -> (event: Event)
        ensures
            event is StakeCollected,
    {
        Event::with_clock(read_clock())
    }

    /// The event that follows the arrival of the stake, given what the read
    /// of the runtime clock came to: the reading where there is one, no
    /// clock where the read failed, whatever the failure.
    pub fn with_clock(read: Result<ClockReading, anchor_lang::prelude::ProgramError>) -> (event: Event)
        ensures
            event == (Event::StakeCollected {
                clock: match read {
                    Ok(reading) => Some(reading),
                    Err(_) => None,
                },
            }),
    {
        match read {
            Ok(reading) => Event::StakeCollected { clock: Some(reading) },
            Err(_) => Event::StakeCollected { clock: None },
        }
    }
}

/// Advances the settlement by one event and says what the driver is to do
/// next. The whole of the rules is [`Settlement::step`].
///
/// The counters of the ledger are 64 bits wide and must have room for what
/// the event leads to; [`FlipCoin::has_room_for`] tells whether they do.
pub fn flip_coin(ctx: &mut FlipCoin, event: Event) -> (action: Action)
    requires
        old(ctx)@.ledger.representable() ==> old(ctx)@.step(event).0.ledger.representable(),
    ensures
        (final(ctx)@, action) == old(ctx)@.step(event),
{
    proof {
        use_type_invariant(&*ctx);
    }
    let mut game_state = ctx.game_state;
    match (ctx.stage, event) {
        (Stage::Ready, Event::Wager { bet_amount, choice }) => {
            if bet_amount < MIN_BET || bet_amount > MAX_BET {
                Action::Failed(CoinFlipError::InvalidBetAmount)
            } else if choice > TAILS {
                Action::Failed(CoinFlipError::InvalidChoice)
            } else {
                *ctx = FlipCoin { game_state, stage: Stage::AwaitingEscrow { bet_amount, choice } };
                Action::CollectStake { amount: bet_amount }
            }
        },
        (Stage::AwaitingEscrow { bet_amount, choice }, Event::StakeCollected { clock }) => {
            game_state.apply(0, 0, bet_amount as i64);
            match clock {
                None => {
                    *ctx = FlipCoin { game_state, stage: Stage::Ready };
                    Action::Failed(CoinFlipError::ClockUnavailable)
                },
                Some(reading) => {
                    let result = reading.coin_face();
                    if choice != result {
                        game_state.apply(1, bet_amount, 0);
                        *ctx = FlipCoin { game_state, stage: Stage::Ready };
                        Action::Settled(
                            FlipResult { choice, result, user_won: false, amount_moved: bet_amount },
                        )
                    } else {
                        let win_amount = bet_amount * 2;
                        if game_state.house_balance < win_amount {
                            *ctx = FlipCoin { game_state, stage: Stage::Ready };
                            Action::Failed(CoinFlipError::InsufficientHouseBalance)
                        } else {
                            *ctx = FlipCoin { game_state, stage: Stage::AwaitingPayout { bet_amount, choice } };
                            Action::PayWinnings { amount: win_amount }
                        }
                    }
                },
            }
        },
        (Stage::AwaitingEscrow { .. }, Event::StakeRefused) => {
            *ctx = FlipCoin { game_state, stage: Stage::Ready };
            Action::Failed(CoinFlipError::EscrowTransferFailed)
        },
        (Stage::AwaitingPayout { bet_amount, choice }, Event::WinningsPaid) => {
            let win_amount = bet_amount * 2;
            game_state.apply(1, bet_amount, -(win_amount as i64));
            *ctx = FlipCoin { game_state, stage: Stage::Ready };
            Action::Settled(FlipResult { choice, result: choice, user_won: true, amount_moved: win_amount })
        },
        (Stage::AwaitingPayout { .. }, Event::WinningsRefused) => {
            *ctx = FlipCoin { game_state, stage: Stage::Ready };
            Action::Failed(CoinFlipError::PayoutTransferFailed)
        },
        _ => Action::Unexpected,
    }
}

} // verus!
