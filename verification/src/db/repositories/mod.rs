pub mod close_position_events;
pub mod collateral_combine_event;
pub mod collateral_deposit_event;
pub mod collateral_marker_liquidated_event;
pub mod collateral_transfer;
pub mod collateral_withdraw_event;
pub mod new_account_event;
pub mod open_position_events;
pub mod position_liquidated_event;
pub mod start_collateral_value_assertion_event;
pub mod vault_created_events;
pub mod vault_transfer;
