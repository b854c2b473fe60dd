use vstd::prelude::*;
use crate::state::AccountKey;

verus! {

/// One user's claims on the two pools of a market.
#[derive(Clone, Copy, Debug, PartialEq, Eq)]
pub struct UserPosition {
    pub owner: AccountKey,
    /// Collateral the user put in, less what the user took out.
    pub deposited_jito: u64,
    pub deposited_shares: u64,
    /// Principal the user drew, less what the user paid back.
    pub borrowed_sol: u64,
    pub borrowed_shares: u64,
    pub last_update_timestamp: i64,
    pub bump: u8,
}

} // verus!
