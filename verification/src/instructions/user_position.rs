use vstd::prelude::*;
use crate::state::position::UserPosition;
use crate::state::AccountKey;

verus! {

/// The bump seeds found for the accounts that opening a position derives.
#[derive(Clone, Copy, Debug, PartialEq, Eq)]
pub struct PositionBumps {
    pub user_position: u8,
}

/// The owner who opens a position, and the record to fill.
#[derive(Clone, Copy, Debug, PartialEq, Eq)]
pub struct Position {
    pub owner: AccountKey,
    pub user_position: UserPosition,
}

impl Position {
    /// The record of a position opened at time `now`: it belongs to the
    /// owner and holds no collateral, no debt and no shares.
    pub open spec fn new_position(self, bump: u8, now: i64) -> UserPosition {
        UserPosition {
            owner: self.owner,
            deposited_jito: 0,
            deposited_shares: 0,
            borrowed_sol: 0,
            borrowed_shares: 0,
            last_update_timestamp: now,
            bump,
        }
    }

    /// Fills the position record for a position opened at time `now`.
    pub fn create_position(&mut self, bumps: &PositionBumps, now: i64)
        ensures
            final(self).user_position == old(self).new_position(bumps.user_position, now),
            final(self).owner == old(self).owner,
    {
        self.user_position.owner = self.owner;
        self.user_position.deposited_jito = 0;
        self.user_position.deposited_shares = 0;
        self.user_position.borrowed_sol = 0;
        self.user_position.borrowed_shares = 0;
        self.user_position.last_update_timestamp = now;
        self.user_position.bump = bumps.user_position;
    }
}

} // verus!
