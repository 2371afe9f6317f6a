pub mod address;
pub mod error;
pub mod instructions;
pub mod laws;
pub mod receipt;
pub mod state;
pub mod transfer;

pub use crate::error::Failure;
pub use crate::error::VaultError;
pub use crate::instructions::admin_transfer::admin_transfer;
pub use crate::instructions::admin_transfer::AdminTransfer;
pub use crate::instructions::deposit::deposit;
pub use crate::instructions::deposit::Deposit;
pub use crate::instructions::deposit_by_depositor::deposit_by_depositor;
pub use crate::instructions::deposit_by_depositor::DepositByDepositor;
pub use crate::instructions::get_lp_value::get_lp_value;
pub use crate::instructions::get_lp_value::GetLpValue;
pub use crate::instructions::register::register;
pub use crate::instructions::register::Register;
pub use crate::instructions::register_depositor::register_depositor;
pub use crate::instructions::register_depositor::RegisterDepositor;
pub use crate::instructions::withdraw::withdraw;
pub use crate::instructions::withdraw::Withdraw;
pub use crate::state::DepositorState;
pub use crate::state::VaultState;
