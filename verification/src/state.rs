//! The persistent record of one escrow game and the error taxonomy.

use vstd::prelude::*;
use crate::keys::Pubkey;

verus! {

/// Why an escrow operation was refused. Every error is terminal for the
/// attempted operation and leaves the record and all balances unchanged.
#[derive(Clone, Copy, PartialEq, Eq, Structural, Debug)]
pub enum ErrorCode {
    /// The stake of a new escrow was zero.
    InvalidStake,
    /// A record already exists at the creator's derived address.
    AlreadyExists,
    /// The game has already been settled.
    GameNotActive,
    /// A second participant has already joined.
    GameFull,
    /// A supplied account does not match the one derivable from the record.
    AuthorityMismatch,
    /// The ledger refused a transfer: insufficient source balance or a
    /// destination balance that would not fit.
    TransferFailed,
    /// The pot computation would overflow.
    ArithmeticOverflow,
}

/// The record of one escrow game, addressed by a key derived from its
/// creator. `player1`, `bet_amount` and `bump` are immutable once set;
/// `player2` is written once, at settlement; `is_active` falls from `true`
/// to `false` exactly once, coincident with the payout.
#[derive(Clone, Copy, PartialEq, Eq, Debug)]
pub struct GameState {
    pub player1: Pubkey,
    pub player2: Option<Pubkey>,
    pub bet_amount: u64,
    pub is_active: bool,
    pub bump: u8,
}

impl GameState {
    /// Well-formedness of a reachable record: the stake is positive, and a
    /// joiner is present only once the game is settled.
    pub open spec fn wf(self) -> bool {
        &&& self.bet_amount > 0
        &&& self.is_active ==> self.player2 is None
    }
}

} // verus!
