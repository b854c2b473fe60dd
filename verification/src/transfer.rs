use vstd::prelude::*;
use crate::error::TransferError;

verus! {

/// A custodial account that an operation moves assets from or to.
#[derive(Clone, Copy, Debug, PartialEq, Eq, Structural)]
pub enum Custody {
    /// The caller's own token account.
    User,
    /// The pool's custody of deposited collateral.
    DepositVault,
    /// The pool's custody of the asset that is lent out.
    BorrowVault,
}

/// Who signs for a movement of assets.
#[derive(Clone, Copy, Debug, PartialEq, Eq, Structural)]
pub enum Authority {
    /// The caller, for assets that leave the caller's account.
    Caller,
    /// The pool's own delegated authority, for assets that leave a vault.
    Market,
}

/// The movement of assets that an operation calls for. The library names it;
/// the host carries it out, with exactly this amount, which may be zero.
#[derive(Clone, Copy, Debug, PartialEq, Eq, Structural)]
pub struct Transfer {
    pub from: Custody,
    pub to: Custody,
    pub authority: Authority,
    pub amount: u64,
}

/// What became of the transfer an operation called for.
pub type TransferOutcome = Result<(), TransferError>;

} // verus!
