pub mod collateral_combine_event;
pub mod collateral_deposit_event;
pub mod collateral_marker_liquidated;
pub mod collateral_transfer_created;
pub mod collateral_withdraw_event;
pub mod common;
pub mod new_account_event;
pub mod position_closed;
pub mod position_created;
pub mod position_liquidated;
pub mod start_collateral_value_assertion_event;
pub mod vault_created;
pub mod vault_transfer_created;
