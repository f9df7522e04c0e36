//! The runtime clock and the face that it decides.

use vstd::prelude::*;
use anchor_lang::prelude::{Clock, ProgramError};
use anchor_lang::solana_program::sysvar::Sysvar;

verus! {

/// The error type `ProgramError` of Solana. Nothing is read from it.
#[verifier::external_type_specification]
#[verifier::external_body]
pub struct ExProgramError(ProgramError);

/// The face "heads".
pub const HEADS: u8 = 0;

/// The face "tails".
pub const TAILS: u8 = 1;

/// What a settlement reads of the runtime clock.
#[derive(Clone, Copy, Debug, PartialEq, Eq, Structural)]
pub struct ClockReading {
    /// Approximate wall-clock time of the current slot, in seconds since the
    /// Unix epoch.
    pub unix_timestamp: i64,
    /// The current slot.
    pub slot: u64,
}

impl ClockReading {
    /// The face that this reading decides: the parity of timestamp plus
    /// slot, 0 for heads and 1 for tails.
    ///
    /// Both summands can be known before a wager is placed, so the face can
    /// be predicted. That is how the game is defined.
    pub open spec fn face(self) -> int {
        (self.unix_timestamp + self.slot) % 2
    }

    /// Computes [`Self::face`]. The sum is taken in 64 bits, where it may
    /// wrap around; its parity is that of the true sum all the same.
    pub fn coin_face(&self) -> (face: u8)
        ensures
            face == self.face(),
            face == HEADS || face == TAILS,
    {
        let timestamp = self.unix_timestamp;
        let unsigned: u64 = #[verifier::truncate] (timestamp as u64);
        assert((unsigned % 2 == 0) <==> (timestamp % 2 == 0)) by (bit_vector)
            requires
                unsigned == timestamp as u64,
        ;
        let seed: u64 = unsigned.wrapping_add(self.slot);
        (seed % 2) as u8
    }
}

/// `Clock::get` of the Solana runtime, reduced to the two fields that a
/// settlement reads. The reading differs from call to call and fails outside
/// a running program, so nothing is claimed of the result.
#[verifier::external_body]
pub(crate) fn read_clock() -> (res: Result<ClockReading, ProgramError>) {
    match Clock::get() {
        Ok(clock) => Ok(ClockReading { unix_timestamp: clock.unix_timestamp, slot: clock.slot }),
        Err(e) => Err(e),
    }
}

} // verus!
