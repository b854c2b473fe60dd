pub mod add_liquidity;
pub mod borrow;
pub mod deposit;
pub mod initialize_market;
pub mod repay;
pub mod user_position;
pub mod withdraw;

pub use add_liquidity::{AddLiquidity, AddLiquidityEvent};
pub use borrow::{Borrow, BorrowEvent, BorrowPlan};
pub use deposit::{Deposit, DepositEvent};
pub use initialize_market::{InitializeMarket, InitializeMarketBumps};
pub use repay::{Repay, RepayEvent, RepayPlan};
pub use user_position::{Position, PositionBumps};
pub use withdraw::{Withdraw, WithdrawEvent, WithdrawPlan};
