//! The transfers that a settlement asks for, as instructions to the system
//! program.

use vstd::prelude::*;
use anchor_lang::prelude::Pubkey;
use anchor_lang::solana_program::instruction::Instruction;
use anchor_lang::solana_program::system_instruction;
use crate::settlement::Action;

verus! {

/// The type `Instruction` of Solana: a call of a program, ready to be
/// invoked. The library builds such values and hands them on unread.
#[verifier::external_type_specification]
#[verifier::external_body]
pub struct ExInstruction(Instruction);

/// The instruction by which the system program moves `lamports` from the
/// account `from`, which signs, to the account `to`: what
/// `system_instruction::transfer` returns for these three arguments.
pub uninterp spec fn system_transfer(from: Pubkey, to: Pubkey, lamports: u64) -> Instruction;

/// `system_instruction::transfer` of Solana. It builds the instruction from
/// its three arguments and nothing else, so the result is named after them.
#[verifier::external_body]
fn transfer_instruction(from: &Pubkey, to: &Pubkey, lamports: u64) -> (instruction: Instruction)
    ensures
        instruction == system_transfer(*from, *to, lamports),
{
    system_instruction::transfer(from, to, lamports)
}

impl Action {
    /// The transfer that this action asks for between the account `user`
    /// of the caller and the account `pool` of the ledger: the stake goes
    /// from the caller to the pool, the winnings go from the pool to the
    /// caller. The other actions ask for none.
    pub open spec fn transfer_between(self, user: Pubkey, pool: Pubkey) -> Option<Instruction> {
        match self {
            Action::CollectStake { amount } => Some(system_transfer(user, pool, amount)),
            Action::PayWinnings { amount } => Some(system_transfer(pool, user, amount)),
            _ => None,
        }
    }

    /// Builds [`Self::transfer_between`].
    pub fn transfer(&self, user: &Pubkey, pool: &Pubkey) -> (instruction: Option<Instruction>)
        ensures
            instruction == self.transfer_between(*user, *pool),
    {
        match self {
            Action::CollectStake { amount } => Some(transfer_instruction(user, pool, *amount)),
            Action::PayWinnings { amount } => Some(transfer_instruction(pool, user, *amount)),
            _ => None,
        }
    }
}

} // verus!
