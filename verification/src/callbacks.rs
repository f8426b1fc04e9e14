//! Settlement notifications for the transfer-creation events. The library
//! decides whether a notification is owed and assembles its endpoint and
//! fields; actually sending it is fire-and-forget work of the surrounding
//! process, in a failure domain of its own that never blocks persistence.
use vstd::prelude::*;

verus! {

use crate::db::repositories::vault_created_events::{VaultCreatedEventRepository,
    spec_first_for_vault_address};
use crate::events::collateral_transfer_created::{CollateralTransferCreatedEvent,
    CollateralTransferCreatedEventV};
use crate::events::common::convert_sui_address_to_hex_string;
use crate::events::vault_transfer_created::{VaultTransferCreatedEvent, VaultTransferCreatedEventV};
use crate::text::{dec_str_of, hex0x_of, u64_to_dec_string};
use vstd::string::StringExecFns;

/// An outbound notification of a vault-transfer creation: ids as
/// "0x"-prefixed hex, the amount as a decimal string.
#[derive(Debug)]
pub struct VaultTransferNotification {
    pub endpoint: String,
    pub transfer_id: String,
    pub vault_address: String,
    pub vault_marker_id: String,
    pub amount: String,
    pub to_user_address: String,
}

pub struct VaultTransferNotificationV {
    pub endpoint: Seq<char>,
    pub transfer_id: Seq<char>,
    pub vault_address: Seq<char>,
    pub vault_marker_id: Seq<char>,
    pub amount: Seq<char>,
    pub to_user_address: Seq<char>,
}

impl View for VaultTransferNotification {
    type V = VaultTransferNotificationV;

    open spec fn view(&self) -> VaultTransferNotificationV {
        VaultTransferNotificationV {
            endpoint: self.endpoint@,
            transfer_id: self.transfer_id@,
            vault_address: self.vault_address@,
            vault_marker_id: self.vault_marker_id@,
            amount: self.amount@,
            to_user_address: self.to_user_address@,
        }
    }
}

/// An outbound notification of a collateral-transfer creation. The vault
/// marker id is resolved from the stored vault-created row of the
/// destination vault.
#[derive(Debug)]
pub struct CollateralTransferNotification {
    pub endpoint: String,
    pub transfer_id: String,
    pub collateral_address: String,
    pub to_vault_address: String,
    pub vault_marker_id: String,
    pub collateral_marker_id: String,
    pub amount: String,
}

pub struct CollateralTransferNotificationV {
    pub endpoint: Seq<char>,
    pub transfer_id: Seq<char>,
    pub collateral_address: Seq<char>,
    pub to_vault_address: Seq<char>,
    pub vault_marker_id: Seq<char>,
    pub collateral_marker_id: Seq<char>,
    pub amount: Seq<char>,
}

impl View for CollateralTransferNotification {
    type V = CollateralTransferNotificationV;

    open spec fn view(&self) -> CollateralTransferNotificationV {
        CollateralTransferNotificationV {
            endpoint: self.endpoint@,
            transfer_id: self.transfer_id@,
            collateral_address: self.collateral_address@,
            to_vault_address: self.to_vault_address@,
            vault_marker_id: self.vault_marker_id@,
            collateral_marker_id: self.collateral_marker_id@,
            amount: self.amount@,
        }
    }
}

/// The notification owed for a vault-transfer creation.
pub open spec fn spec_vault_transfer_notification(
    e: VaultTransferCreatedEventV,
    service_url: Seq<char>,
) -> VaultTransferNotificationV {
    VaultTransferNotificationV {
        endpoint: service_url + "/execute_vault_transfer"@,
        transfer_id: hex0x_of(e.transfer_id),
        vault_address: hex0x_of(e.vault_address),
        vault_marker_id: hex0x_of(e.vault_marker_id),
        amount: dec_str_of(e.amount as nat),
        to_user_address: hex0x_of(e.to_user_address),
    }
}

/// The notification owed for a collateral-transfer creation, given the
/// marker id of the destination vault.
pub open spec fn spec_collateral_transfer_notification(
    e: CollateralTransferCreatedEventV,
    service_url: Seq<char>,
    vault_marker_id: Seq<char>,
) -> CollateralTransferNotificationV {
    CollateralTransferNotificationV {
        endpoint: service_url + "/execute_collateral_transfer"@,
        transfer_id: hex0x_of(e.transfer_id),
        collateral_address: hex0x_of(e.collateral_address),
        to_vault_address: hex0x_of(e.to_vault_address),
        vault_marker_id: vault_marker_id,
        collateral_marker_id: hex0x_of(e.collateral_marker_id),
        amount: dec_str_of(e.amount as nat),
    }
}

/// Assembles the notification for a vault-transfer creation. It is owed
/// unconditionally on a successful decode, whatever becomes of the local
/// row.
pub fn on_vault_transfer_created(
    event: &VaultTransferCreatedEvent,
    service_url: &String,
) -> (r: VaultTransferNotification)
    ensures
        r@ == spec_vault_transfer_notification(event@, service_url@),
{
    proof {
        reveal_strlit("/execute_vault_transfer");
    }
    VaultTransferNotification {
        endpoint: service_url.clone().concat("/execute_vault_transfer"),
        transfer_id: convert_sui_address_to_hex_string(&event.transfer_id),
        vault_address: convert_sui_address_to_hex_string(&event.vault_address),
        vault_marker_id: convert_sui_address_to_hex_string(&event.vault_marker_id),
        amount: u64_to_dec_string(event.amount),
        to_user_address: convert_sui_address_to_hex_string(&event.to_user_address),
    }
}

/// Assembles the notification for a collateral-transfer creation, resolving
/// the destination vault's marker id first. When no vault-created row
/// matches the destination address the notification is skipped entirely;
/// the transfer row itself is persisted regardless.
pub fn on_collateral_transfer_created(
    event: &CollateralTransferCreatedEvent,
    service_url: &String,
    vault_repo: &VaultCreatedEventRepository,
) -> (r: Option<CollateralTransferNotification>)
    ensures
        match spec_first_for_vault_address(vault_repo@, hex0x_of(event@.to_vault_address)) {
            Some(vault) => match r {
                Some(n) => n@ == spec_collateral_transfer_notification(
                    event@,
                    service_url@,
                    vault.vault_marker_address,
                ),
                None => false,
            },
            None => r is None,
        },
{
    let vault_address = convert_sui_address_to_hex_string(&event.to_vault_address);
    match vault_repo.find_by_vault_address(&vault_address) {
        None => None,
        Some(vault) => {
            proof {
                reveal_strlit("/execute_collateral_transfer");
            }
            Some(
                CollateralTransferNotification {
                    endpoint: service_url.clone().concat("/execute_collateral_transfer"),
                    transfer_id: convert_sui_address_to_hex_string(&event.transfer_id),
                    collateral_address: convert_sui_address_to_hex_string(
                        &event.collateral_address,
                    ),
                    to_vault_address: vault_address,
                    vault_marker_id: vault.vault_marker_address,
                    collateral_marker_id: convert_sui_address_to_hex_string(
                        &event.collateral_marker_id,
                    ),
                    amount: u64_to_dec_string(event.amount),
                },
            )
        },
    }
}

} // verus!
