pub mod admin_transfer;
pub mod deposit;
pub mod deposit_by_depositor;
pub mod get_lp_value;
pub mod register;
pub mod register_depositor;
pub mod withdraw;
