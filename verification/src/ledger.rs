//! The pool ledger: who created it, how many wagers it has settled, how much
//! was staked in all, and what the pool holds to pay winners.

use vstd::prelude::*;
use anchor_lang::prelude::Pubkey;
use crate::error::CoinFlipError;

verus! {

/// The 32-byte identity `Pubkey` of Solana. The library stores such a value
/// and hands it on; it never looks inside.
#[verifier::external_type_specification]
#[verifier::external_body]
pub struct ExPubkey(Pubkey);

/// Bytes that the persisted record of a [`GameState`] occupies: a tag of
/// eight bytes, the authority, and the three counters.
pub const GAME_STATE_SPACE: usize = 8 + 32 + 8 + 8 + 8;

/// The ledger as mathematics sees it: counters without an upper limit.
pub struct Ledger {
    pub authority: Pubkey,
    pub total_games: nat,
    pub total_volume: nat,
    pub house_balance: nat,
}

impl Ledger {
    /// The ledger right after its creation by `authority`.
    pub open spec fn fresh(authority: Pubkey) -> Ledger {
        Ledger { authority, total_games: 0, total_volume: 0, house_balance: 0 }
    }

    /// The ledger after `delta_games` more wagers, `delta_volume` more stake
    /// and a change of the reserve by `delta_balance`. The authority stays.
    pub open spec fn apply(self, delta_games: nat, delta_volume: nat, delta_balance: int) -> Ledger {
        Ledger {
            authority: self.authority,
            total_games: self.total_games + delta_games,
            total_volume: self.total_volume + delta_volume,
            house_balance: (self.house_balance + delta_balance) as nat,
        }
    }

    /// Whether the reserve can take a change by `delta_balance` without going
    /// below zero.
    pub open spec fn covers(self, delta_balance: int) -> bool {
        self.house_balance + delta_balance >= 0
    }

    /// Whether every counter fits the 64 bits of the persisted record.
    pub open spec fn representable(self) -> bool {
        &&& self.total_games <= u64::MAX
        &&& self.total_volume <= u64::MAX
        &&& self.house_balance <= u64::MAX
    }
}

/// The persisted record of the pool.
#[derive(Clone, Copy, Debug, PartialEq, Eq)]
pub struct GameState {
    /// Who created the ledger. Set once, never changed.
    pub authority: Pubkey,
    /// Number of wagers settled so far.
    pub total_games: u64,
    /// Sum of the stakes of all settled wagers.
    pub total_volume: u64,
    /// What the pool holds to pay winners.
    pub house_balance: u64,
}

impl View for GameState {
    type V = Ledger;

    open spec fn view(&self) -> Ledger {
        Ledger {
            authority: self.authority,
            total_games: self.total_games as nat,
            total_volume: self.total_volume as nat,
            house_balance: self.house_balance as nat,
        }
    }
}

impl GameState {
    /// A ledger with all counters at zero, created by `authority`.
    pub fn new(authority: Pubkey) -> (state: GameState)
        ensures
            state@ == Ledger::fresh(authority),
    {
        GameState { authority, total_games: 0, total_volume: 0, house_balance: 0 }
    }

    /// Adds the three deltas to the counters in one step. The caller has
    /// made sure that the reserve covers `delta_balance`: this function does
    /// not clamp.
    pub fn apply(&mut self, delta_games: u64, delta_volume: u64, delta_balance: i64)
        requires
            old(self)@.covers(delta_balance as int),
            old(self)@.apply(delta_games as nat, delta_volume as nat, delta_balance as int).representable(),
        ensures
            final(self)@ == old(self)@.apply(delta_games as nat, delta_volume as nat, delta_balance as int),
    {
        self.total_games = self.total_games + delta_games;
        self.total_volume = self.total_volume + delta_volume;
        if delta_balance >= 0 {
            self.house_balance = self.house_balance + (delta_balance as u64);
        } else {
            // -(delta + 1) cannot overflow, whereas -delta can
            let below_zero: u64 = (-(delta_balance + 1)) as u64;
            self.house_balance = self.house_balance - below_zero - 1;
        }
    }
}

/// What the creation of the ledger works on: the place where the ledger is
/// kept, empty as long as none exists, and the identity of the creator.
#[derive(Clone, Copy, Debug, PartialEq, Eq)]
pub struct Initialize {
    pub game_state: Option<GameState>,
    pub authority: Pubkey,
}

/// Creates the ledger for `ctx.authority` with all counters at zero. Where a
/// ledger exists already, it is left as it is and the call fails.
pub fn initialize(ctx: &mut Initialize) -> (res: Result<(), CoinFlipError>)
    ensures
        final(ctx).authority == old(ctx).authority,
        old(ctx).game_state is None ==> res is Ok && final(ctx).game_state is Some
            && final(ctx).game_state->0@ == Ledger::fresh(old(ctx).authority),
        old(ctx).game_state is Some ==> res == Err::<(), CoinFlipError>(CoinFlipError::AlreadyInitialized)
            && final(ctx).game_state == old(ctx).game_state,
{
    if ctx.game_state.is_some() {
        return Err(CoinFlipError::AlreadyInitialized);
    }
    ctx.game_state = Some(GameState::new(ctx.authority));
    Ok(())
}

/// What a balance query works on: the lamports that the account of `user`
/// holds at the time of the query.
#[derive(Clone, Copy, Debug, PartialEq, Eq)]
pub struct GetBalance {
    pub user: Pubkey,
    pub lamports: u64,
}

/// The lamports that the queried account holds. Nothing is changed.
pub fn get_user_balance(ctx: &GetBalance) -> (res: Result<u64, CoinFlipError>)
    ensures
        res == Ok::<u64, CoinFlipError>(ctx.lamports),
{
    Ok(ctx.lamports)
}

} // verus!
