//! Storage rows, one struct per record kind. 32-byte identifiers are stored
//! as hex strings (with a "0x" prefix on the position, vault and transfer
//! paths, bare on the collateral and account paths), amounts as exact
//! unsigned integers, and event times as epoch milliseconds.
use vstd::prelude::*;

verus! {

use crate::db::table::KeyedRecord;

/// A position-opened row, keyed by transaction hash.
#[derive(Debug)]
pub struct OpenPositionEvent {
    pub transaction_hash: String,
    pub position_id: String,
    pub position_type: String,
    pub amount: u64,
    pub leverage_multiplier: u16,
    pub entry_price: u64,
    pub entry_price_decimals: i32,
    pub supported_positions_token_i: i32,
    pub price_feed_id_bytes: String,
    pub account_id: String,
    pub timestamp: i64,
}

pub struct OpenPositionEventV {
    pub transaction_hash: Seq<char>,
    pub position_id: Seq<char>,
    pub position_type: Seq<char>,
    pub amount: u64,
    pub leverage_multiplier: u16,
    pub entry_price: u64,
    pub entry_price_decimals: i32,
    pub supported_positions_token_i: i32,
    pub price_feed_id_bytes: Seq<char>,
    pub account_id: Seq<char>,
    pub timestamp: i64,
}

impl View for OpenPositionEvent {
    type V = OpenPositionEventV;

    open spec fn view(&self) -> OpenPositionEventV {
        OpenPositionEventV {
            transaction_hash: self.transaction_hash@,
            position_id: self.position_id@,
            position_type: self.position_type@,
            amount: self.amount,
            leverage_multiplier: self.leverage_multiplier,
            entry_price: self.entry_price,
            entry_price_decimals: self.entry_price_decimals,
            supported_positions_token_i: self.supported_positions_token_i,
            price_feed_id_bytes: self.price_feed_id_bytes@,
            account_id: self.account_id@,
            timestamp: self.timestamp,
        }
    }
}

impl KeyedRecord for OpenPositionEvent {
    open spec fn key_view(v: OpenPositionEventV) -> Seq<char> {
        v.transaction_hash
    }

    fn key(&self) -> (k: &String) {
        &self.transaction_hash
    }

    fn duplicate(&self) -> (r: Self) {
        OpenPositionEvent {
            transaction_hash: self.transaction_hash.clone(),
            position_id: self.position_id.clone(),
            position_type: self.position_type.clone(),
            amount: self.amount,
            leverage_multiplier: self.leverage_multiplier,
            entry_price: self.entry_price,
            entry_price_decimals: self.entry_price_decimals,
            supported_positions_token_i: self.supported_positions_token_i,
            price_feed_id_bytes: self.price_feed_id_bytes.clone(),
            account_id: self.account_id.clone(),
            timestamp: self.timestamp,
        }
    }
}

/// A position-closed row, keyed by transaction hash.
#[derive(Debug)]
pub struct ClosePositionEvent {
    pub transaction_hash: String,
    pub position_id: String,
    pub position_type: String,
    pub amount: u64,
    pub leverage_multiplier: u16,
    pub entry_price: u64,
    pub entry_price_decimals: i32,
    pub close_price: u64,
    pub close_price_decimals: i32,
    pub price_delta: u64,
    pub transfer_amount: u64,
    pub transfer_to: String,
    pub account_id: String,
    pub timestamp: i64,
}

pub struct ClosePositionEventV {
    pub transaction_hash: Seq<char>,
    pub position_id: Seq<char>,
    pub position_type: Seq<char>,
    pub amount: u64,
    pub leverage_multiplier: u16,
    pub entry_price: u64,
    pub entry_price_decimals: i32,
    pub close_price: u64,
    pub close_price_decimals: i32,
    pub price_delta: u64,
    pub transfer_amount: u64,
    pub transfer_to: Seq<char>,
    pub account_id: Seq<char>,
    pub timestamp: i64,
}

impl View for ClosePositionEvent {
    type V = ClosePositionEventV;

    open spec fn view(&self) -> ClosePositionEventV {
        ClosePositionEventV {
            transaction_hash: self.transaction_hash@,
            position_id: self.position_id@,
            position_type: self.position_type@,
            amount: self.amount,
            leverage_multiplier: self.leverage_multiplier,
            entry_price: self.entry_price,
            entry_price_decimals: self.entry_price_decimals,
            close_price: self.close_price,
            close_price_decimals: self.close_price_decimals,
            price_delta: self.price_delta,
            transfer_amount: self.transfer_amount,
            transfer_to: self.transfer_to@,
            account_id: self.account_id@,
            timestamp: self.timestamp,
        }
    }
}

impl KeyedRecord for ClosePositionEvent {
    open spec fn key_view(v: ClosePositionEventV) -> Seq<char> {
        v.transaction_hash
    }

    fn key(&self) -> (k: &String) {
        &self.transaction_hash
    }

    fn duplicate(&self) -> (r: Self) {
        ClosePositionEvent {
            transaction_hash: self.transaction_hash.clone(),
            position_id: self.position_id.clone(),
            position_type: self.position_type.clone(),
            amount: self.amount,
            leverage_multiplier: self.leverage_multiplier,
            entry_price: self.entry_price,
            entry_price_decimals: self.entry_price_decimals,
            close_price: self.close_price,
            close_price_decimals: self.close_price_decimals,
            price_delta: self.price_delta,
            transfer_amount: self.transfer_amount,
            transfer_to: self.transfer_to.clone(),
            account_id: self.account_id.clone(),
            timestamp: self.timestamp,
        }
    }
}

/// A vault-created row, keyed by transaction hash.
#[derive(Debug)]
pub struct VaultCreatedEvent {
    pub transaction_hash: String,
    pub vault_address: String,
    pub vault_marker_address: String,
    pub coin_token_info: String,
    pub lp_token_info: String,
    pub timestamp: i64,
}

pub struct VaultCreatedEventV {
    pub transaction_hash: Seq<char>,
    pub vault_address: Seq<char>,
    pub vault_marker_address: Seq<char>,
    pub coin_token_info: Seq<char>,
    pub lp_token_info: Seq<char>,
    pub timestamp: i64,
}

impl View for VaultCreatedEvent {
    type V = VaultCreatedEventV;

    open spec fn view(&self) -> VaultCreatedEventV {
        VaultCreatedEventV {
            transaction_hash: self.transaction_hash@,
            vault_address: self.vault_address@,
            vault_marker_address: self.vault_marker_address@,
            coin_token_info: self.coin_token_info@,
            lp_token_info: self.lp_token_info@,
            timestamp: self.timestamp,
        }
    }
}

impl KeyedRecord for VaultCreatedEvent {
    open spec fn key_view(v: VaultCreatedEventV) -> Seq<char> {
        v.transaction_hash
    }

    fn key(&self) -> (k: &String) {
        &self.transaction_hash
    }

    fn duplicate(&self) -> (r: Self) {
        VaultCreatedEvent {
            transaction_hash: self.transaction_hash.clone(),
            vault_address: self.vault_address.clone(),
            vault_marker_address: self.vault_marker_address.clone(),
            coin_token_info: self.coin_token_info.clone(),
            lp_token_info: self.lp_token_info.clone(),
            timestamp: self.timestamp,
        }
    }
}

/// An account-opened row, keyed by transaction hash.
#[derive(Debug)]
pub struct NewAccountEvent {
    pub transaction_hash: String,
    pub account_id: String,
    pub stats_id: String,
    pub timestamp: i64,
}

pub struct NewAccountEventV {
    pub transaction_hash: Seq<char>,
    pub account_id: Seq<char>,
    pub stats_id: Seq<char>,
    pub timestamp: i64,
}

impl View for NewAccountEvent {
    type V = NewAccountEventV;

    open spec fn view(&self) -> NewAccountEventV {
        NewAccountEventV {
            transaction_hash: self.transaction_hash@,
            account_id: self.account_id@,
            stats_id: self.stats_id@,
            timestamp: self.timestamp,
        }
    }
}

impl KeyedRecord for NewAccountEvent {
    open spec fn key_view(v: NewAccountEventV) -> Seq<char> {
        v.transaction_hash
    }

    fn key(&self) -> (k: &String) {
        &self.transaction_hash
    }

    fn duplicate(&self) -> (r: Self) {
        NewAccountEvent {
            transaction_hash: self.transaction_hash.clone(),
            account_id: self.account_id.clone(),
            stats_id: self.stats_id.clone(),
            timestamp: self.timestamp,
        }
    }
}

/// A collateral-deposit row, keyed by transaction hash.
#[derive(Debug)]
pub struct CollateralDepositEvent {
    pub transaction_hash: String,
    pub collateral_id: String,
    pub collateral_marker_id: String,
    pub account_id: String,
    pub token_address: String,
    pub amount: u64,
    pub timestamp: i64,
}

pub struct CollateralDepositEventV {
    pub transaction_hash: Seq<char>,
    pub collateral_id: Seq<char>,
    pub collateral_marker_id: Seq<char>,
    pub account_id: Seq<char>,
    pub token_address: Seq<char>,
    pub amount: u64,
    pub timestamp: i64,
}

impl View for CollateralDepositEvent {
    type V = CollateralDepositEventV;

    open spec fn view(&self) -> CollateralDepositEventV {
        CollateralDepositEventV {
            transaction_hash: self.transaction_hash@,
            collateral_id: self.collateral_id@,
            collateral_marker_id: self.collateral_marker_id@,
            account_id: self.account_id@,
            token_address: self.token_address@,
            amount: self.amount,
            timestamp: self.timestamp,
        }
    }
}

impl KeyedRecord for CollateralDepositEvent {
    open spec fn key_view(v: CollateralDepositEventV) -> Seq<char> {
        v.transaction_hash
    }

    fn key(&self) -> (k: &String) {
        &self.transaction_hash
    }

    fn duplicate(&self) -> (r: Self) {
        CollateralDepositEvent {
            transaction_hash: self.transaction_hash.clone(),
            collateral_id: self.collateral_id.clone(),
            collateral_marker_id: self.collateral_marker_id.clone(),
            account_id: self.account_id.clone(),
            token_address: self.token_address.clone(),
            amount: self.amount,
            timestamp: self.timestamp,
        }
    }
}

/// A collateral-withdraw row, keyed by transaction hash.
#[derive(Debug)]
pub struct CollateralWithdrawEvent {
    pub transaction_hash: String,
    pub collateral_id: String,
    pub collateral_marker_id: String,
    pub account_id: String,
    pub token_address: String,
    pub withdrawn_amount: u64,
    pub marker_destroyed: bool,
    pub remaining_amount_in_marker: u64,
    pub timestamp: i64,
}

pub struct CollateralWithdrawEventV {
    pub transaction_hash: Seq<char>,
    pub collateral_id: Seq<char>,
    pub collateral_marker_id: Seq<char>,
    pub account_id: Seq<char>,
    pub token_address: Seq<char>,
    pub withdrawn_amount: u64,
    pub marker_destroyed: bool,
    pub remaining_amount_in_marker: u64,
    pub timestamp: i64,
}

impl View for CollateralWithdrawEvent {
    type V = CollateralWithdrawEventV;

    open spec fn view(&self) -> CollateralWithdrawEventV {
        CollateralWithdrawEventV {
            transaction_hash: self.transaction_hash@,
            collateral_id: self.collateral_id@,
            collateral_marker_id: self.collateral_marker_id@,
            account_id: self.account_id@,
            token_address: self.token_address@,
            withdrawn_amount: self.withdrawn_amount,
            marker_destroyed: self.marker_destroyed,
            remaining_amount_in_marker: self.remaining_amount_in_marker,
            timestamp: self.timestamp,
        }
    }
}

impl KeyedRecord for CollateralWithdrawEvent {
    open spec fn key_view(v: CollateralWithdrawEventV) -> Seq<char> {
        v.transaction_hash
    }

    fn key(&self) -> (k: &String) {
        &self.transaction_hash
    }

    fn duplicate(&self) -> (r: Self) {
        CollateralWithdrawEvent {
            transaction_hash: self.transaction_hash.clone(),
            collateral_id: self.collateral_id.clone(),
            collateral_marker_id: self.collateral_marker_id.clone(),
            account_id: self.account_id.clone(),
            token_address: self.token_address.clone(),
            withdrawn_amount: self.withdrawn_amount,
            marker_destroyed: self.marker_destroyed,
            remaining_amount_in_marker: self.remaining_amount_in_marker,
            timestamp: self.timestamp,
        }
    }
}

/// A collateral-combine row, keyed by transaction hash. The two old markers
/// are the sources consumed by the combination.
#[derive(Debug)]
pub struct CollateralCombineEvent {
    pub transaction_hash: String,
    pub old_collateral_id1: String,
    pub old_collateral_marker_id1: String,
    pub old_collateral_id2: String,
    pub old_collateral_marker_id2: String,
    pub new_collateral_id: String,
    pub new_collateral_marker_id: String,
    pub account_id: String,
    pub token_address: String,
    pub combined_amount: u64,
    pub timestamp: i64,
}

pub struct CollateralCombineEventV {
    pub transaction_hash: Seq<char>,
    pub old_collateral_id1: Seq<char>,
    pub old_collateral_marker_id1: Seq<char>,
    pub old_collateral_id2: Seq<char>,
    pub old_collateral_marker_id2: Seq<char>,
    pub new_collateral_id: Seq<char>,
    pub new_collateral_marker_id: Seq<char>,
    pub account_id: Seq<char>,
    pub token_address: Seq<char>,
    pub combined_amount: u64,
    pub timestamp: i64,
}

impl View for CollateralCombineEvent {
    type V = CollateralCombineEventV;

    open spec fn view(&self) -> CollateralCombineEventV {
        CollateralCombineEventV {
            transaction_hash: self.transaction_hash@,
            old_collateral_id1: self.old_collateral_id1@,
            old_collateral_marker_id1: self.old_collateral_marker_id1@,
            old_collateral_id2: self.old_collateral_id2@,
            old_collateral_marker_id2: self.old_collateral_marker_id2@,
            new_collateral_id: self.new_collateral_id@,
            new_collateral_marker_id: self.new_collateral_marker_id@,
            account_id: self.account_id@,
            token_address: self.token_address@,
            combined_amount: self.combined_amount,
            timestamp: self.timestamp,
        }
    }
}

impl KeyedRecord for CollateralCombineEvent {
    open spec fn key_view(v: CollateralCombineEventV) -> Seq<char> {
        v.transaction_hash
    }

    fn key(&self) -> (k: &String) {
        &self.transaction_hash
    }

    fn duplicate(&self) -> (r: Self) {
        CollateralCombineEvent {
            transaction_hash: self.transaction_hash.clone(),
            old_collateral_id1: self.old_collateral_id1.clone(),
            old_collateral_marker_id1: self.old_collateral_marker_id1.clone(),
            old_collateral_id2: self.old_collateral_id2.clone(),
            old_collateral_marker_id2: self.old_collateral_marker_id2.clone(),
            new_collateral_id: self.new_collateral_id.clone(),
            new_collateral_marker_id: self.new_collateral_marker_id.clone(),
            account_id: self.account_id.clone(),
            token_address: self.token_address.clone(),
            combined_amount: self.combined_amount,
            timestamp: self.timestamp,
        }
    }
}

/// A marker-liquidated row, keyed by transaction hash.
#[derive(Debug)]
pub struct CollateralMarkerLiquidatedEvent {
    pub transaction_hash: String,
    pub collateral_marker_id: String,
    pub account_id: String,
    pub timestamp: i64,
}

pub struct CollateralMarkerLiquidatedEventV {
    pub transaction_hash: Seq<char>,
    pub collateral_marker_id: Seq<char>,
    pub account_id: Seq<char>,
    pub timestamp: i64,
}

impl View for CollateralMarkerLiquidatedEvent {
    type V = CollateralMarkerLiquidatedEventV;

    open spec fn view(&self) -> CollateralMarkerLiquidatedEventV {
        CollateralMarkerLiquidatedEventV {
            transaction_hash: self.transaction_hash@,
            collateral_marker_id: self.collateral_marker_id@,
            account_id: self.account_id@,
            timestamp: self.timestamp,
        }
    }
}

impl KeyedRecord for CollateralMarkerLiquidatedEvent {
    open spec fn key_view(v: CollateralMarkerLiquidatedEventV) -> Seq<char> {
        v.transaction_hash
    }

    fn key(&self) -> (k: &String) {
        &self.transaction_hash
    }

    fn duplicate(&self) -> (r: Self) {
        CollateralMarkerLiquidatedEvent {
            transaction_hash: self.transaction_hash.clone(),
            collateral_marker_id: self.collateral_marker_id.clone(),
            account_id: self.account_id.clone(),
            timestamp: self.timestamp,
        }
    }
}

/// A position-liquidated row, keyed by transaction hash.
#[derive(Debug)]
pub struct PositionLiquidatedEvent {
    pub transaction_hash: String,
    pub position_id: String,
    pub timestamp: i64,
}

pub struct PositionLiquidatedEventV {
    pub transaction_hash: Seq<char>,
    pub position_id: Seq<char>,
    pub timestamp: i64,
}

impl View for PositionLiquidatedEvent {
    type V = PositionLiquidatedEventV;

    open spec fn view(&self) -> PositionLiquidatedEventV {
        PositionLiquidatedEventV {
            transaction_hash: self.transaction_hash@,
            position_id: self.position_id@,
            timestamp: self.timestamp,
        }
    }
}

impl KeyedRecord for PositionLiquidatedEvent {
    open spec fn key_view(v: PositionLiquidatedEventV) -> Seq<char> {
        v.transaction_hash
    }

    fn key(&self) -> (k: &String) {
        &self.transaction_hash
    }

    fn duplicate(&self) -> (r: Self) {
        PositionLiquidatedEvent {
            transaction_hash: self.transaction_hash.clone(),
            position_id: self.position_id.clone(),
            timestamp: self.timestamp,
        }
    }
}

/// A collateral-value-assertion start row, keyed by assertion id.
#[derive(Debug)]
pub struct StartCollateralValueAssertionEvent {
    pub cva_id: String,
    pub transaction_hash: String,
    pub account_id: String,
    pub program_id: String,
    pub num_open_collateral_objects: i64,
    pub timestamp: i64,
}

pub struct StartCollateralValueAssertionEventV {
    pub cva_id: Seq<char>,
    pub transaction_hash: Seq<char>,
    pub account_id: Seq<char>,
    pub program_id: Seq<char>,
    pub num_open_collateral_objects: i64,
    pub timestamp: i64,
}

impl View for StartCollateralValueAssertionEvent {
    type V = StartCollateralValueAssertionEventV;

    open spec fn view(&self) -> StartCollateralValueAssertionEventV {
        StartCollateralValueAssertionEventV {
            cva_id: self.cva_id@,
            transaction_hash: self.transaction_hash@,
            account_id: self.account_id@,
            program_id: self.program_id@,
            num_open_collateral_objects: self.num_open_collateral_objects,
            timestamp: self.timestamp,
        }
    }
}

impl KeyedRecord for StartCollateralValueAssertionEvent {
    open spec fn key_view(v: StartCollateralValueAssertionEventV) -> Seq<char> {
        v.cva_id
    }

    fn key(&self) -> (k: &String) {
        &self.cva_id
    }

    fn duplicate(&self) -> (r: Self) {
        StartCollateralValueAssertionEvent {
            cva_id: self.cva_id.clone(),
            transaction_hash: self.transaction_hash.clone(),
            account_id: self.account_id.clone(),
            program_id: self.program_id.clone(),
            num_open_collateral_objects: self.num_open_collateral_objects,
            timestamp: self.timestamp,
        }
    }
}

/// A collateral-transfer row, keyed by transfer id. `fulfilled` is advisory
/// state for the external settlement process; ingestion never sets it true.
#[derive(Debug)]
pub struct CollateralTransfer {
    pub transaction_hash: String,
    pub transfer_id: String,
    pub collateral_marker_id: String,
    pub collateral_address: String,
    pub amount: u64,
    pub to_vault_address: String,
    pub fulfilled: bool,
    pub timestamp: i64,
}

pub struct CollateralTransferV {
    pub transaction_hash: Seq<char>,
    pub transfer_id: Seq<char>,
    pub collateral_marker_id: Seq<char>,
    pub collateral_address: Seq<char>,
    pub amount: u64,
    pub to_vault_address: Seq<char>,
    pub fulfilled: bool,
    pub timestamp: i64,
}

impl View for CollateralTransfer {
    type V = CollateralTransferV;

    open spec fn view(&self) -> CollateralTransferV {
        CollateralTransferV {
            transaction_hash: self.transaction_hash@,
            transfer_id: self.transfer_id@,
            collateral_marker_id: self.collateral_marker_id@,
            collateral_address: self.collateral_address@,
            amount: self.amount,
            to_vault_address: self.to_vault_address@,
            fulfilled: self.fulfilled,
            timestamp: self.timestamp,
        }
    }
}

impl KeyedRecord for CollateralTransfer {
    open spec fn key_view(v: CollateralTransferV) -> Seq<char> {
        v.transfer_id
    }

    fn key(&self) -> (k: &String) {
        &self.transfer_id
    }

    fn duplicate(&self) -> (r: Self) {
        CollateralTransfer {
            transaction_hash: self.transaction_hash.clone(),
            transfer_id: self.transfer_id.clone(),
            collateral_marker_id: self.collateral_marker_id.clone(),
            collateral_address: self.collateral_address.clone(),
            amount: self.amount,
            to_vault_address: self.to_vault_address.clone(),
            fulfilled: self.fulfilled,
            timestamp: self.timestamp,
        }
    }
}

/// A vault-transfer row, keyed by transfer id. `fulfilled` is advisory state
/// for the external settlement process; ingestion never sets it true.
#[derive(Debug)]
pub struct VaultTransfer {
    pub transaction_hash: String,
    pub transfer_id: String,
    pub vault_marker_id: String,
    pub vault_address: String,
    pub amount: u64,
    pub to_user_address: String,
    pub fulfilled: bool,
    pub timestamp: i64,
}

pub struct VaultTransferV {
    pub transaction_hash: Seq<char>,
    pub transfer_id: Seq<char>,
    pub vault_marker_id: Seq<char>,
    pub vault_address: Seq<char>,
    pub amount: u64,
    pub to_user_address: Seq<char>,
    pub fulfilled: bool,
    pub timestamp: i64,
}

impl View for VaultTransfer {
    type V = VaultTransferV;

    open spec fn view(&self) -> VaultTransferV {
        VaultTransferV {
            transaction_hash: self.transaction_hash@,
            transfer_id: self.transfer_id@,
            vault_marker_id: self.vault_marker_id@,
            vault_address: self.vault_address@,
            amount: self.amount,
            to_user_address: self.to_user_address@,
            fulfilled: self.fulfilled,
            timestamp: self.timestamp,
        }
    }
}

impl KeyedRecord for VaultTransfer {
    open spec fn key_view(v: VaultTransferV) -> Seq<char> {
        v.transfer_id
    }

    fn key(&self) -> (k: &String) {
        &self.transfer_id
    }

    fn duplicate(&self) -> (r: Self) {
        VaultTransfer {
            transaction_hash: self.transaction_hash.clone(),
            transfer_id: self.transfer_id.clone(),
            vault_marker_id: self.vault_marker_id.clone(),
            vault_address: self.vault_address.clone(),
            amount: self.amount,
            to_user_address: self.to_user_address.clone(),
            fulfilled: self.fulfilled,
            timestamp: self.timestamp,
        }
    }
}

} // verus!
