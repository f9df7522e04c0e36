//! Settlement rules of a coin wager against a pooled house reserve.
//!
//! A caller stakes lamports on heads or tails. The stake goes into the pool;
//! the runtime clock decides the face; a winner is paid twice the stake out of
//! the pool, if the pool can afford it. The library decides how much moves in
//! which direction and keeps the pool's ledger. Moving the lamports is the
//! business of whoever drives it.

pub mod clock;
pub mod driver;
pub mod error;
pub mod guarantees;
pub mod ledger;
pub mod settlement;
pub mod transfer;

pub use clock::{ClockReading, HEADS, TAILS};
pub use driver::{settle, Answers, Receipt};
pub use error::CoinFlipError;
pub use ledger::{get_user_balance, initialize, GameState, GetBalance, Initialize, Ledger, GAME_STATE_SPACE};
pub use settlement::{flip_coin, Action, Event, FlipCoin, FlipResult, Settlement, Stage, MAX_BET, MIN_BET};
pub use transfer::system_transfer;
