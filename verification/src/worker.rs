//! The checkpoint dispatcher. For each transaction of a finalized
//! checkpoint it classifies every event against the type-tag catalogue
//! built from the configured protocol package, decodes and maps matched
//! payloads, persists the rows under the per-kind conflict policies, and
//! assembles the settlement notifications owed for transfer creations.
//!
//! Per-event failures (decode, mapping, store) are contained: they skip
//! that event and never interrupt the checkpoint. Only an unrepresentable
//! checkpoint timestamp is fatal, before any event is touched.
use vstd::prelude::*;

verus! {

use crate::TimestampError;
use crate::callbacks::{CollateralTransferNotification, CollateralTransferNotificationV,
    VaultTransferNotification, VaultTransferNotificationV, on_collateral_transfer_created,
    on_vault_transfer_created, spec_collateral_transfer_notification,
    spec_vault_transfer_notification};
use crate::config::Config;
use crate::db::models::{ClosePositionEvent, ClosePositionEventV, CollateralDepositEvent as
    CollateralDepositRow, CollateralDepositEventV as CollateralDepositRowV,
    CollateralMarkerLiquidatedEvent as CollateralMarkerLiquidatedRow,
    CollateralMarkerLiquidatedEventV as CollateralMarkerLiquidatedRowV, CollateralTransfer,
    CollateralTransferV, NewAccountEvent as NewAccountRow, NewAccountEventV as NewAccountRowV,
    OpenPositionEvent, OpenPositionEventV, PositionLiquidatedEvent as PositionLiquidatedRow,
    PositionLiquidatedEventV as PositionLiquidatedRowV, StartCollateralValueAssertionEvent as
    StartCvaRow, StartCollateralValueAssertionEventV as StartCvaRowV, VaultCreatedEvent as
    VaultCreatedRow, VaultCreatedEventV as VaultCreatedRowV, VaultTransfer, VaultTransferV};
use crate::db::repositories::close_position_events::ClosePositionEventRepository;
use crate::db::repositories::collateral_deposit_event::CollateralDepositEventRepository;
use crate::db::repositories::collateral_marker_liquidated_event::CollateralMarkerLiquidatedEventRepository;
use crate::db::repositories::collateral_transfer::CollateralTransferRepository;
use crate::db::repositories::new_account_event::NewAccountEventRepository;
use crate::db::repositories::open_position_events::OpenPositionEventRepository;
use crate::db::repositories::position_liquidated_event::PositionLiquidatedEventRepository;
use crate::db::repositories::start_collateral_value_assertion_event::StartCollateralValueAssertionEventRepository;
use crate::db::repositories::vault_created_events::{VaultCreatedEventRepository,
    spec_first_for_vault_address};
use crate::db::repositories::vault_transfer::VaultTransferRepository;
use crate::db::table::{spec_create, has_key};
use crate::events::collateral_deposit_event::{CollateralDepositEvent,
    spec_decode_collateral_deposit, spec_map_collateral_deposit};
use crate::events::collateral_marker_liquidated::{CollateralMarkerLiquidatedEvent,
    spec_decode_collateral_marker_liquidated, spec_map_collateral_marker_liquidated};
use crate::events::collateral_transfer_created::{CollateralTransferCreatedEvent,
    spec_decode_collateral_transfer_created, spec_map_collateral_transfer_created};
use crate::events::new_account_event::{NewAccountEvent, spec_decode_new_account,
    spec_map_new_account};
use crate::events::position_closed::{PositionClosedEvent, spec_decode_position_closed,
    spec_map_position_closed};
use crate::events::position_created::{PositionCreatedEvent, spec_decode_position_created,
    spec_map_position_created};
use crate::events::position_liquidated::{PositionLiquidatedEvent,
    spec_decode_position_liquidated, spec_map_position_liquidated};
use crate::events::start_collateral_value_assertion_event::{StartCollateralValueAssertionEvent,
    spec_decode_start_cva, spec_map_start_cva};
use crate::events::vault_created::{VaultCreatedEvent, spec_decode_vault_created,
    spec_map_vault_created};
use crate::events::vault_transfer_created::{VaultTransferCreatedEvent,
    spec_decode_vault_transfer_created, spec_map_vault_transfer_created};
use crate::text::hex0x_of;
use vstd::string::StringExecFns;

/// One event of a transaction: its fully-qualified type tag and its raw
/// payload bytes.
pub struct EventPayload {
    pub type_tag: String,
    pub payload: Vec<u8>,
}

pub struct EventPayloadV {
    pub type_tag: Seq<char>,
    pub payload: Seq<u8>,
}

impl View for EventPayload {
    type V = EventPayloadV;

    open spec fn view(&self) -> EventPayloadV {
        EventPayloadV { type_tag: self.type_tag@, payload: self.payload@ }
    }
}

/// One transaction of a checkpoint: its canonical digest string and its
/// events, if it emitted any.
pub struct Transaction {
    pub digest: String,
    pub events: Option<Vec<EventPayload>>,
}

pub struct TransactionV {
    pub digest: Seq<char>,
    pub events: Option<Seq<EventPayloadV>>,
}

impl View for Transaction {
    type V = TransactionV;

    open spec fn view(&self) -> TransactionV {
        TransactionV {
            digest: self.digest@,
            events: match self.events {
                Some(evs) => Some(evs@.map_values(|e: EventPayload| e@)),
                None => None,
            },
        }
    }
}

/// A finalized checkpoint from the chain stream source.
pub struct Checkpoint {
    pub sequence_number: u64,
    pub timestamp_ms: u64,
    pub transactions: Vec<Transaction>,
}

pub struct CheckpointV {
    pub sequence_number: u64,
    pub timestamp_ms: u64,
    pub transactions: Seq<TransactionV>,
}

impl View for Checkpoint {
    type V = CheckpointV;

    open spec fn view(&self) -> CheckpointV {
        CheckpointV {
            sequence_number: self.sequence_number,
            timestamp_ms: self.timestamp_ms,
            transactions: self.transactions@.map_values(|t: Transaction| t@),
        }
    }
}

/// The earliest event time the stored date type can represent, in epoch
/// milliseconds.
pub const MIN_TIMESTAMP_MS: i64 = -8334601228800000;

/// The latest event time the stored date type can represent, in epoch
/// milliseconds.
pub const MAX_TIMESTAMP_MS: i64 = 8210266876799999;

/// The two's-complement reinterpretation of the unsigned millisecond field.
pub open spec fn spec_signed_ms(ms: u64) -> int {
    if ms <= i64::MAX as u64 {
        ms as int
    } else {
        ms as int - 0x1_0000_0000_0000_0000
    }
}

/// The wall-clock time of a checkpoint: its millisecond field
/// reinterpreted as signed, valid exactly within the representable date
/// range.
pub open spec fn spec_checkpoint_time(ms: u64) -> Option<i64> {
    let s = spec_signed_ms(ms);
    if MIN_TIMESTAMP_MS as int <= s && s <= MAX_TIMESTAMP_MS as int {
        Some(s as i64)
    } else {
        None
    }
}

/// A settlement notification owed by a processed checkpoint, to be sent
/// fire-and-forget by the surrounding process.
#[derive(Debug)]
pub enum Notification {
    VaultTransfer(VaultTransferNotification),
    CollateralTransfer(CollateralTransferNotification),
}

pub enum NotificationV {
    VaultTransfer(VaultTransferNotificationV),
    CollateralTransfer(CollateralTransferNotificationV),
}

impl View for Notification {
    type V = NotificationV;

    open spec fn view(&self) -> NotificationV {
        match self {
            Notification::VaultTransfer(n) => NotificationV::VaultTransfer(n@),
            Notification::CollateralTransfer(n) => NotificationV::CollateralTransfer(n@),
        }
    }
}

/// The contents of the ten tables the dispatcher writes.
pub struct StoreV {
    pub opens: Seq<OpenPositionEventV>,
    pub closes: Seq<ClosePositionEventV>,
    pub vaults: Seq<VaultCreatedRowV>,
    pub accounts: Seq<NewAccountRowV>,
    pub deposits: Seq<CollateralDepositRowV>,
    pub cvas: Seq<StartCvaRowV>,
    pub collateral_transfers: Seq<CollateralTransferV>,
    pub vault_transfers: Seq<VaultTransferV>,
    pub position_liquidations: Seq<PositionLiquidatedRowV>,
    pub marker_liquidations: Seq<CollateralMarkerLiquidatedRowV>,
}

/// The resolved type-tag catalogue, one tag per recognized kind.
pub struct TagsV {
    pub position_created: Seq<char>,
    pub position_closed: Seq<char>,
    pub vault_created: Seq<char>,
    pub new_account: Seq<char>,
    pub collateral_deposit: Seq<char>,
    pub start_cva: Seq<char>,
    pub collateral_transfer_created: Seq<char>,
    pub vault_transfer_created: Seq<char>,
    pub position_liquidated: Seq<char>,
    pub collateral_marker_liquidated: Seq<char>,
}

/// The catalogue built from a protocol package id:
/// `{package}::{module}::{EventName}` per kind.
pub open spec fn spec_tags(package: Seq<char>) -> TagsV {
    TagsV {
        position_created: package + "::positions::PositionCreatedEvent"@,
        position_closed: package + "::positions::PositionClosedEvent"@,
        vault_created: package + "::lp::VaultCreatedEvent"@,
        new_account: package + "::accounts::NewAccountEvent"@,
        collateral_deposit: package + "::collateral::CollateralDepositEvent"@,
        start_cva: package + "::collateral::StartCollateralValueAssertionEvent"@,
        collateral_transfer_created: package + "::collateral::CollateralTransferCreated"@,
        vault_transfer_created: package + "::lp::VaultTransferCreated"@,
        position_liquidated: package + "::positions::PositionLiquidatedEvent"@,
        collateral_marker_liquidated: package + "::collateral::CollateralMarkerLiquidatedEvent"@,
    }
}

/// Effect of a position-opened event on the store.
pub open spec fn spec_apply_position_created(
    store: StoreV,
    digest: Seq<char>,
    t: i64,
    payload: Seq<u8>,
) -> StoreV {
    match spec_decode_position_created(payload) {
        None => store,
        Some(e) => match spec_map_position_created(e, digest, t) {
            None => store,
            Some(row) => if has_key::<OpenPositionEvent>(store.opens, row.transaction_hash) {
                store
            } else {
                StoreV { opens: store.opens.push(row), ..store }
            },
        },
    }
}

/// Effect of a position-closed event on the store.
pub open spec fn spec_apply_position_closed(
    store: StoreV,
    digest: Seq<char>,
    t: i64,
    payload: Seq<u8>,
) -> StoreV {
    match spec_decode_position_closed(payload) {
        None => store,
        Some(e) => {
            let row = spec_map_position_closed(e, digest, t);
            if has_key::<ClosePositionEvent>(store.closes, row.transaction_hash) {
                store
            } else {
                StoreV { closes: store.closes.push(row), ..store }
            }
        },
    }
}

/// Effect of a vault-created event on the store.
pub open spec fn spec_apply_vault_created(
    store: StoreV,
    digest: Seq<char>,
    t: i64,
    payload: Seq<u8>,
) -> StoreV {
    match spec_decode_vault_created(payload) {
        None => store,
        Some(e) => {
            let row = spec_map_vault_created(e, digest, t);
            if has_key::<VaultCreatedRow>(store.vaults, row.transaction_hash) {
                store
            } else {
                StoreV { vaults: store.vaults.push(row), ..store }
            }
        },
    }
}

/// Effect of an account-opened event on the store.
pub open spec fn spec_apply_new_account(
    store: StoreV,
    digest: Seq<char>,
    t: i64,
    payload: Seq<u8>,
) -> StoreV {
    match spec_decode_new_account(payload) {
        None => store,
        Some(e) => StoreV {
            accounts: spec_create::<NewAccountRow>(
                store.accounts,
                spec_map_new_account(e, digest, t),
            ).0,
            ..store
        },
    }
}

/// Effect of a collateral-deposit event on the store.
pub open spec fn spec_apply_collateral_deposit(
    store: StoreV,
    digest: Seq<char>,
    t: i64,
    payload: Seq<u8>,
) -> StoreV {
    match spec_decode_collateral_deposit(payload) {
        None => store,
        Some(e) => StoreV {
            deposits: spec_create::<CollateralDepositRow>(
                store.deposits,
                spec_map_collateral_deposit(e, digest, t),
            ).0,
            ..store
        },
    }
}

/// Effect of an assertion-start event on the store.
pub open spec fn spec_apply_start_cva(
    store: StoreV,
    digest: Seq<char>,
    t: i64,
    payload: Seq<u8>,
) -> StoreV {
    match spec_decode_start_cva(payload) {
        None => store,
        Some(e) => match spec_map_start_cva(e, digest, t) {
            None => store,
            Some(row) => StoreV { cvas: spec_create::<StartCvaRow>(store.cvas, row).0, ..store },
        },
    }
}

/// Effect of a position-liquidated event on the store.
pub open spec fn spec_apply_position_liquidated(
    store: StoreV,
    digest: Seq<char>,
    t: i64,
    payload: Seq<u8>,
) -> StoreV {
    match spec_decode_position_liquidated(payload) {
        None => store,
        Some(e) => StoreV {
            position_liquidations: spec_create::<PositionLiquidatedRow>(
                store.position_liquidations,
                spec_map_position_liquidated(e, digest, t),
            ).0,
            ..store
        },
    }
}

/// Effect of a marker-liquidated event on the store.
pub open spec fn spec_apply_collateral_marker_liquidated(
    store: StoreV,
    digest: Seq<char>,
    t: i64,
    payload: Seq<u8>,
) -> StoreV {
    match spec_decode_collateral_marker_liquidated(payload) {
        None => store,
        Some(e) => StoreV {
            marker_liquidations: spec_create::<CollateralMarkerLiquidatedRow>(
                store.marker_liquidations,
                spec_map_collateral_marker_liquidated(e, digest, t),
            ).0,
            ..store
        },
    }
}

/// Effect of a collateral-transfer-created event: the notification is owed
/// exactly when a vault-created row resolves the destination vault's
/// marker; the transfer row is persisted either way. Notification and
/// persistence are independent failure domains.
pub open spec fn spec_apply_collateral_transfer_created(
    store: StoreV,
    url: Seq<char>,
    digest: Seq<char>,
    t: i64,
    payload: Seq<u8>,
) -> (StoreV, Seq<NotificationV>) {
    match spec_decode_collateral_transfer_created(payload) {
        None => (store, Seq::empty()),
        Some(e) => {
            let notes = match spec_first_for_vault_address(
                store.vaults,
                hex0x_of(e.to_vault_address),
            ) {
                Some(vault) => seq![
                    NotificationV::CollateralTransfer(
                        spec_collateral_transfer_notification(e, url, vault.vault_marker_address),
                    ),
                ],
                None => Seq::empty(),
            };
            let row = spec_map_collateral_transfer_created(e, digest, t);
            let store2 = if has_key::<CollateralTransfer>(
                store.collateral_transfers,
                row.transfer_id,
            ) {
                store
            } else {
                StoreV { collateral_transfers: store.collateral_transfers.push(row), ..store }
            };
            (store2, notes)
        },
    }
}

/// Effect of a vault-transfer-created event: the notification is owed
/// unconditionally on a successful decode; the transfer row is persisted
/// independently.
pub open spec fn spec_apply_vault_transfer_created(
    store: StoreV,
    url: Seq<char>,
    digest: Seq<char>,
    t: i64,
    payload: Seq<u8>,
) -> (StoreV, Seq<NotificationV>) {
    match spec_decode_vault_transfer_created(payload) {
        None => (store, Seq::empty()),
        Some(e) => {
            let notes = seq![
                NotificationV::VaultTransfer(spec_vault_transfer_notification(e, url)),
            ];
            let row = spec_map_vault_transfer_created(e, digest, t);
            let store2 = if has_key::<VaultTransfer>(store.vault_transfers, row.transfer_id) {
                store
            } else {
                StoreV { vault_transfers: store.vault_transfers.push(row), ..store }
            };
            (store2, notes)
        },
    }
}

/// Effect of one event: classification against the catalogue, in the
/// dispatcher's comparison order; an unmatched tag is ignored.
pub open spec fn spec_apply_event(
    tags: TagsV,
    url: Seq<char>,
    store: StoreV,
    digest: Seq<char>,
    t: i64,
    ev: EventPayloadV,
) -> (StoreV, Seq<NotificationV>) {
    if ev.type_tag == tags.position_created {
        (spec_apply_position_created(store, digest, t, ev.payload), Seq::empty())
    } else if ev.type_tag == tags.position_closed {
        (spec_apply_position_closed(store, digest, t, ev.payload), Seq::empty())
    } else if ev.type_tag == tags.vault_created {
        (spec_apply_vault_created(store, digest, t, ev.payload), Seq::empty())
    } else if ev.type_tag == tags.new_account {
        (spec_apply_new_account(store, digest, t, ev.payload), Seq::empty())
    } else if ev.type_tag == tags.collateral_deposit {
        (spec_apply_collateral_deposit(store, digest, t, ev.payload), Seq::empty())
    } else if ev.type_tag == tags.start_cva {
        (spec_apply_start_cva(store, digest, t, ev.payload), Seq::empty())
    } else if ev.type_tag == tags.collateral_transfer_created {
        spec_apply_collateral_transfer_created(store, url, digest, t, ev.payload)
    } else if ev.type_tag == tags.vault_transfer_created {
        spec_apply_vault_transfer_created(store, url, digest, t, ev.payload)
    } else if ev.type_tag == tags.position_liquidated {
        (spec_apply_position_liquidated(store, digest, t, ev.payload), Seq::empty())
    } else if ev.type_tag == tags.collateral_marker_liquidated {
        (spec_apply_collateral_marker_liquidated(store, digest, t, ev.payload), Seq::empty())
    } else {
        (store, Seq::empty())
    }
}

/// Effect of a transaction's event list, in order.
pub open spec fn spec_apply_events(
    tags: TagsV,
    url: Seq<char>,
    store: StoreV,
    digest: Seq<char>,
    t: i64,
    events: Seq<EventPayloadV>,
) -> (StoreV, Seq<NotificationV>)
    decreases events.len(),
{
    if events.len() == 0 {
        (store, Seq::empty())
    } else {
        let (s1, n1) = spec_apply_event(tags, url, store, digest, t, events[0]);
        let (s2, n2) = spec_apply_events(tags, url, s1, digest, t, events.drop_first());
        (s2, n1 + n2)
    }
}

/// Effect of a checkpoint's transactions, in order; a transaction without
/// events is skipped.
pub open spec fn spec_apply_transactions(
    tags: TagsV,
    url: Seq<char>,
    store: StoreV,
    txs: Seq<TransactionV>,
    t: i64,
) -> (StoreV, Seq<NotificationV>)
    decreases txs.len(),
{
    if txs.len() == 0 {
        (store, Seq::empty())
    } else {
        let (s1, n1) = match txs[0].events {
            None => (store, Seq::<NotificationV>::empty()),
            Some(evs) => spec_apply_events(tags, url, store, txs[0].digest, t, evs),
        };
        let (s2, n2) = spec_apply_transactions(tags, url, s1, txs.drop_first(), t);
        (s2, n1 + n2)
    }
}

/// Effect of a whole checkpoint: fatal when its timestamp is out of range,
/// else the fold over its transactions at the checkpoint's single
/// wall-clock time.
pub open spec fn spec_apply_checkpoint(
    tags: TagsV,
    url: Seq<char>,
    store: StoreV,
    cp: CheckpointV,
) -> Option<(StoreV, Seq<NotificationV>)> {
    match spec_checkpoint_time(cp.timestamp_ms) {
        None => None,
        Some(t) => Some(spec_apply_transactions(tags, url, store, cp.transactions, t)),
    }
}

/// The dispatcher: the ten repositories, the resolved type-tag catalogue,
/// and the settlement service base URL.
pub struct PositionEventWorker {
    pub open_repo: OpenPositionEventRepository,
    pub close_repo: ClosePositionEventRepository,
    pub vault_repo: VaultCreatedEventRepository,
    pub new_account_repo: NewAccountEventRepository,
    pub collateral_deposit_repo: CollateralDepositEventRepository,
    pub start_collateral_value_assertion_repo: StartCollateralValueAssertionEventRepository,
    pub collateral_transfer_repo: CollateralTransferRepository,
    pub vault_transfer_repo: VaultTransferRepository,
    pub position_liquidated_repo: PositionLiquidatedEventRepository,
    pub collateral_marker_liquidated_repo: CollateralMarkerLiquidatedEventRepository,
    pub position_created_event_type: String,
    pub position_closed_event_type: String,
    pub vault_created_event_type: String,
    pub new_account_event_type: String,
    pub collateral_deposit_event_type: String,
    pub start_collateral_value_assertion_event_type: String,
    pub collateral_transfer_created_event_type: String,
    pub vault_transfer_created_event_type: String,
    pub position_liquidated_event_type: String,
    pub collateral_marker_liquidated_event_type: String,
    pub liquidation_transfer_service_url: String,
}

impl PositionEventWorker {
    /// The worker's resolved catalogue.
    pub open spec fn tags(&self) -> TagsV {
        TagsV {
            position_created: self.position_created_event_type@,
            position_closed: self.position_closed_event_type@,
            vault_created: self.vault_created_event_type@,
            new_account: self.new_account_event_type@,
            collateral_deposit: self.collateral_deposit_event_type@,
            start_cva: self.start_collateral_value_assertion_event_type@,
            collateral_transfer_created: self.collateral_transfer_created_event_type@,
            vault_transfer_created: self.vault_transfer_created_event_type@,
            position_liquidated: self.position_liquidated_event_type@,
            collateral_marker_liquidated: self.collateral_marker_liquidated_event_type@,
        }
    }

    /// The contents of the worker's tables.
    pub open spec fn store(&self) -> StoreV {
        StoreV {
            opens: self.open_repo@,
            closes: self.close_repo@,
            vaults: self.vault_repo@,
            accounts: self.new_account_repo@,
            deposits: self.collateral_deposit_repo@,
            cvas: self.start_collateral_value_assertion_repo@,
            collateral_transfers: self.collateral_transfer_repo@,
            vault_transfers: self.vault_transfer_repo@,
            position_liquidations: self.position_liquidated_repo@,
            marker_liquidations: self.collateral_marker_liquidated_repo@,
        }
    }

    /// Every table keeps its key uniqueness invariant.
    pub open spec fn wf(&self) -> bool {
        self.open_repo.wf() && self.close_repo.wf() && self.vault_repo.wf()
            && self.new_account_repo.wf() && self.collateral_deposit_repo.wf()
            && self.start_collateral_value_assertion_repo.wf()
            && self.collateral_transfer_repo.wf() && self.vault_transfer_repo.wf()
            && self.position_liquidated_repo.wf() && self.collateral_marker_liquidated_repo.wf()
    }

    /// Builds the dispatcher, resolving the catalogue once from the
    /// configured protocol package id.
    pub fn new(
        open_repo: OpenPositionEventRepository,
        close_repo: ClosePositionEventRepository,
        vault_repo: VaultCreatedEventRepository,
        new_account_repo: NewAccountEventRepository,
        collateral_deposit_repo: CollateralDepositEventRepository,
        start_collateral_value_assertion_repo: StartCollateralValueAssertionEventRepository,
        collateral_transfer_repo: CollateralTransferRepository,
        vault_transfer_repo: VaultTransferRepository,
        position_liquidated_repo: PositionLiquidatedEventRepository,
        collateral_marker_liquidated_repo: CollateralMarkerLiquidatedEventRepository,
        app_config: &Config,
    ) -> (r: Self)
        ensures
            r.tags() == spec_tags(app_config.package_id@),
            r.liquidation_transfer_service_url@ == app_config.liquidation_transfer_service_url@,
            r.store() == (StoreV {
                opens: open_repo@,
                closes: close_repo@,
                vaults: vault_repo@,
                accounts: new_account_repo@,
                deposits: collateral_deposit_repo@,
                cvas: start_collateral_value_assertion_repo@,
                collateral_transfers: collateral_transfer_repo@,
                vault_transfers: vault_transfer_repo@,
                position_liquidations: position_liquidated_repo@,
                marker_liquidations: collateral_marker_liquidated_repo@,
            }),
            open_repo.wf() && close_repo.wf() && vault_repo.wf() && new_account_repo.wf()
                && collateral_deposit_repo.wf() && start_collateral_value_assertion_repo.wf()
                && collateral_transfer_repo.wf() && vault_transfer_repo.wf()
                && position_liquidated_repo.wf() && collateral_marker_liquidated_repo.wf()
                ==> r.wf(),
    {
        proof {
            reveal_strlit("::positions::PositionCreatedEvent");
            reveal_strlit("::positions::PositionClosedEvent");
            reveal_strlit("::lp::VaultCreatedEvent");
            reveal_strlit("::accounts::NewAccountEvent");
            reveal_strlit("::collateral::CollateralDepositEvent");
            reveal_strlit("::collateral::StartCollateralValueAssertionEvent");
            reveal_strlit("::collateral::CollateralTransferCreated");
            reveal_strlit("::lp::VaultTransferCreated");
            reveal_strlit("::positions::PositionLiquidatedEvent");
            reveal_strlit("::collateral::CollateralMarkerLiquidatedEvent");
        }
        let package_id = &app_config.package_id;
        PositionEventWorker {
            open_repo,
            close_repo,
            vault_repo,
            new_account_repo,
            collateral_deposit_repo,
            start_collateral_value_assertion_repo,
            collateral_transfer_repo,
            vault_transfer_repo,
            position_liquidated_repo,
            collateral_marker_liquidated_repo,
            position_created_event_type: package_id.clone().concat(
                "::positions::PositionCreatedEvent",
            ),
            position_closed_event_type: package_id.clone().concat(
                "::positions::PositionClosedEvent",
            ),
            vault_created_event_type: package_id.clone().concat("::lp::VaultCreatedEvent"),
            new_account_event_type: package_id.clone().concat("::accounts::NewAccountEvent"),
            collateral_deposit_event_type: package_id.clone().concat(
                "::collateral::CollateralDepositEvent",
            ),
            start_collateral_value_assertion_event_type: package_id.clone().concat(
                "::collateral::StartCollateralValueAssertionEvent",
            ),
            collateral_transfer_created_event_type: package_id.clone().concat(
                "::collateral::CollateralTransferCreated",
            ),
            vault_transfer_created_event_type: package_id.clone().concat(
                "::lp::VaultTransferCreated",
            ),
            position_liquidated_event_type: package_id.clone().concat(
                "::positions::PositionLiquidatedEvent",
            ),
            collateral_marker_liquidated_event_type: package_id.clone().concat(
                "::collateral::CollateralMarkerLiquidatedEvent",
            ),
            liquidation_transfer_service_url: app_config.liquidation_transfer_service_url.clone(),
        }
    }

    /// The checkpoint's wall-clock time from its epoch-millisecond field; a
    /// value outside the representable date range is fatal for the whole
    /// checkpoint.
    pub fn timestamp_ms_to_datetime(timestamp_ms: u64) -> (r: Result<i64, TimestampError>)
        ensures
            match r {
                Ok(t) => spec_checkpoint_time(timestamp_ms) == Some(t),
                Err(e) => spec_checkpoint_time(timestamp_ms) is None && e.timestamp_ms
                    == timestamp_ms,
            },
    {
        let signed: i64 = if timestamp_ms <= i64::MAX as u64 {
            timestamp_ms as i64
        } else {
            -1i64 - ((u64::MAX - timestamp_ms) as i64)
        };
        proof {
            assert(signed as int == spec_signed_ms(timestamp_ms));
        }
        if MIN_TIMESTAMP_MS <= signed && signed <= MAX_TIMESTAMP_MS {
            Ok(signed)
        } else {
            Err(TimestampError { timestamp_ms })
        }
    }
}

impl PositionEventWorker {
    fn apply_position_created(&mut self, digest: &String, t: i64, payload: &[u8])
        requires
            old(self).wf(),
        ensures
            final(self).wf(),
            final(self).tags() == old(self).tags(),
            final(self).liquidation_transfer_service_url == old(
                self,
            ).liquidation_transfer_service_url,
            final(self).store() == spec_apply_position_created(
                old(self).store(),
                digest@,
                t,
                payload@,
            ),
    {
        match PositionCreatedEvent::decode(payload) {
            Err(_) => {},
            Ok(parsed) => match parsed.try_map_to_db(digest.clone(), t) {
                Err(_) => {},
                Ok(row) => {
                    let _created = self.open_repo.create(row);
                },
            },
        }
    }

    fn apply_position_closed(&mut self, digest: &String, t: i64, payload: &[u8])
        requires
            old(self).wf(),
        ensures
            final(self).wf(),
            final(self).tags() == old(self).tags(),
            final(self).liquidation_transfer_service_url == old(
                self,
            ).liquidation_transfer_service_url,
            final(self).store() == spec_apply_position_closed(
                old(self).store(),
                digest@,
                t,
                payload@,
            ),
    {
        match PositionClosedEvent::decode(payload) {
            Err(_) => {},
            Ok(parsed) => match parsed.try_map_to_db(digest.clone(), t) {
                Err(_) => {},
                Ok(row) => {
                    let _created = self.close_repo.create(row);
                },
            },
        }
    }

    fn apply_vault_created(&mut self, digest: &String, t: i64, payload: &[u8])
        requires
            old(self).wf(),
        ensures
            final(self).wf(),
            final(self).tags() == old(self).tags(),
            final(self).liquidation_transfer_service_url == old(
                self,
            ).liquidation_transfer_service_url,
            final(self).store() == spec_apply_vault_created(
                old(self).store(),
                digest@,
                t,
                payload@,
            ),
    {
        match VaultCreatedEvent::decode(payload) {
            Err(_) => {},
            Ok(parsed) => match parsed.try_map_to_db(digest.clone(), t) {
                Err(_) => {},
                Ok(row) => {
                    let _created = self.vault_repo.create(row);
                },
            },
        }
    }

    fn apply_new_account(&mut self, digest: &String, t: i64, payload: &[u8])
        requires
            old(self).wf(),
        ensures
            final(self).wf(),
            final(self).tags() == old(self).tags(),
            final(self).liquidation_transfer_service_url == old(
                self,
            ).liquidation_transfer_service_url,
            final(self).store() == spec_apply_new_account(old(self).store(), digest@, t, payload@),
    {
        match NewAccountEvent::decode(payload) {
            Err(_) => {},
            Ok(parsed) => match parsed.try_map_to_db(digest.clone(), t) {
                Err(_) => {},
                Ok(row) => {
                    let _created = self.new_account_repo.create(row);
                },
            },
        }
    }

    fn apply_collateral_deposit(&mut self, digest: &String, t: i64, payload: &[u8])
        requires
            old(self).wf(),
        ensures
            final(self).wf(),
            final(self).tags() == old(self).tags(),
            final(self).liquidation_transfer_service_url == old(
                self,
            ).liquidation_transfer_service_url,
            final(self).store() == spec_apply_collateral_deposit(
                old(self).store(),
                digest@,
                t,
                payload@,
            ),
    {
        match CollateralDepositEvent::decode(payload) {
            Err(_) => {},
            Ok(parsed) => match parsed.try_map_to_db(digest.clone(), t) {
                Err(_) => {},
                Ok(row) => {
                    let _created = self.collateral_deposit_repo.create(row);
                },
            },
        }
    }

    fn apply_start_cva(&mut self, digest: &String, t: i64, payload: &[u8])
        requires
            old(self).wf(),
        ensures
            final(self).wf(),
            final(self).tags() == old(self).tags(),
            final(self).liquidation_transfer_service_url == old(
                self,
            ).liquidation_transfer_service_url,
            final(self).store() == spec_apply_start_cva(old(self).store(), digest@, t, payload@),
    {
        match StartCollateralValueAssertionEvent::decode(payload) {
            Err(_) => {},
            Ok(parsed) => match parsed.try_map_to_db(digest.clone(), t) {
                Err(_) => {},
                Ok(row) => {
                    let _created = self.start_collateral_value_assertion_repo.create(row);
                },
            },
        }
    }

    fn apply_position_liquidated(&mut self, digest: &String, t: i64, payload: &[u8])
        requires
            old(self).wf(),
        ensures
            final(self).wf(),
            final(self).tags() == old(self).tags(),
            final(self).liquidation_transfer_service_url == old(
                self,
            ).liquidation_transfer_service_url,
            final(self).store() == spec_apply_position_liquidated(
                old(self).store(),
                digest@,
                t,
                payload@,
            ),
    {
        match PositionLiquidatedEvent::decode(payload) {
            Err(_) => {},
            Ok(parsed) => match parsed.try_map_to_db(digest.clone(), t) {
                Err(_) => {},
                Ok(row) => {
                    let _created = self.position_liquidated_repo.create(row);
                },
            },
        }
    }

    fn apply_collateral_marker_liquidated(&mut self, digest: &String, t: i64, payload: &[u8])
        requires
            old(self).wf(),
        ensures
            final(self).wf(),
            final(self).tags() == old(self).tags(),
            final(self).liquidation_transfer_service_url == old(
                self,
            ).liquidation_transfer_service_url,
            final(self).store() == spec_apply_collateral_marker_liquidated(
                old(self).store(),
                digest@,
                t,
                payload@,
            ),
    {
        match CollateralMarkerLiquidatedEvent::decode(payload) {
            Err(_) => {},
            Ok(parsed) => match parsed.try_map_to_db(digest.clone(), t) {
                Err(_) => {},
                Ok(row) => {
                    let _created = self.collateral_marker_liquidated_repo.create(row);
                },
            },
        }
    }

    fn apply_collateral_transfer_created(&mut self, digest: &String, t: i64, payload: &[u8]) -> (r:
        Option<Notification>)
        requires
            old(self).wf(),
        ensures
            final(self).wf(),
            final(self).tags() == old(self).tags(),
            final(self).liquidation_transfer_service_url == old(
                self,
            ).liquidation_transfer_service_url,
            ({
                let (s2, notes) = spec_apply_collateral_transfer_created(
                    old(self).store(),
                    old(self).liquidation_transfer_service_url@,
                    digest@,
                    t,
                    payload@,
                );
                final(self).store() == s2 && (match r {
                    Some(n) => notes =~= seq![n@],
                    None => notes =~= Seq::<NotificationV>::empty(),
                })
            }),
    {
        match CollateralTransferCreatedEvent::decode(payload) {
            Err(_) => None,
            Ok(parsed) => {
                let note = on_collateral_transfer_created(
                    &parsed,
                    &self.liquidation_transfer_service_url,
                    &self.vault_repo,
                );
                match parsed.try_map_to_db(digest.clone(), t) {
                    Err(_) => match note {
                        Some(n) => Some(Notification::CollateralTransfer(n)),
                        None => None,
                    },
                    Ok(row) => {
                        let _created = self.collateral_transfer_repo.create(row);
                        match note {
                            Some(n) => Some(Notification::CollateralTransfer(n)),
                            None => None,
                        }
                    },
                }
            },
        }
    }

    fn apply_vault_transfer_created(&mut self, digest: &String, t: i64, payload: &[u8]) -> (r:
        Option<Notification>)
        requires
            old(self).wf(),
        ensures
            final(self).wf(),
            final(self).tags() == old(self).tags(),
            final(self).liquidation_transfer_service_url == old(
                self,
            ).liquidation_transfer_service_url,
            ({
                let (s2, notes) = spec_apply_vault_transfer_created(
                    old(self).store(),
                    old(self).liquidation_transfer_service_url@,
                    digest@,
                    t,
                    payload@,
                );
                final(self).store() == s2 && (match r {
                    Some(n) => notes =~= seq![n@],
                    None => notes =~= Seq::<NotificationV>::empty(),
                })
            }),
    {
        match VaultTransferCreatedEvent::decode(payload) {
            Err(_) => None,
            Ok(parsed) => {
                let note = on_vault_transfer_created(
                    &parsed,
                    &self.liquidation_transfer_service_url,
                );
                match parsed.try_map_to_db(digest.clone(), t) {
                    Err(_) => Some(Notification::VaultTransfer(note)),
                    Ok(row) => {
                        let _created = self.vault_transfer_repo.create(row);
                        Some(Notification::VaultTransfer(note))
                    },
                }
            },
        }
    }

    /// Handles one event: classifies its type tag against the catalogue,
    /// runs the matched kind's decode, mapping and persistence, and
    /// returns the settlement notification owed, if any. An unmatched tag
    /// is ignored.
    fn apply_event(&mut self, digest: &String, t: i64, event: &EventPayload) -> (r: Option<
        Notification,
    >)
        requires
            old(self).wf(),
        ensures
            final(self).wf(),
            final(self).tags() == old(self).tags(),
            final(self).liquidation_transfer_service_url == old(
                self,
            ).liquidation_transfer_service_url,
            ({
                let (s2, notes) = spec_apply_event(
                    old(self).tags(),
                    old(self).liquidation_transfer_service_url@,
                    old(self).store(),
                    digest@,
                    t,
                    event@,
                );
                final(self).store() == s2 && (match r {
                    Some(n) => notes =~= seq![n@],
                    None => notes =~= Seq::<NotificationV>::empty(),
                })
            }),
    {
        if event.type_tag.eq(&self.position_created_event_type) {
            self.apply_position_created(digest, t, event.payload.as_slice());
            None
        } else if event.type_tag.eq(&self.position_closed_event_type) {
            self.apply_position_closed(digest, t, event.payload.as_slice());
            None
        } else if event.type_tag.eq(&self.vault_created_event_type) {
            self.apply_vault_created(digest, t, event.payload.as_slice());
            None
        } else if event.type_tag.eq(&self.new_account_event_type) {
            self.apply_new_account(digest, t, event.payload.as_slice());
            None
        } else if event.type_tag.eq(&self.collateral_deposit_event_type) {
            self.apply_collateral_deposit(digest, t, event.payload.as_slice());
            None
        } else if event.type_tag.eq(&self.start_collateral_value_assertion_event_type) {
            self.apply_start_cva(digest, t, event.payload.as_slice());
            None
        } else if event.type_tag.eq(&self.collateral_transfer_created_event_type) {
            self.apply_collateral_transfer_created(digest, t, event.payload.as_slice())
        } else if event.type_tag.eq(&self.vault_transfer_created_event_type) {
            self.apply_vault_transfer_created(digest, t, event.payload.as_slice())
        } else if event.type_tag.eq(&self.position_liquidated_event_type) {
            self.apply_position_liquidated(digest, t, event.payload.as_slice());
            None
        } else if event.type_tag.eq(&self.collateral_marker_liquidated_event_type) {
            self.apply_collateral_marker_liquidated(digest, t, event.payload.as_slice());
            None
        } else {
            None
        }
    }

    /// Processes one finalized checkpoint: computes its single wall-clock
    /// time, then scans every transaction and event in order. Per-event
    /// failures are contained and never interrupt the scan; only an
    /// out-of-range checkpoint timestamp is fatal, and then nothing is
    /// stored. The returned notifications are owed to the settlement
    /// service whatever becomes of their delivery.
    pub fn process_checkpoint(&mut self, checkpoint: &Checkpoint) -> (r: Result<
        Vec<Notification>,
        TimestampError,
    >)
        requires
            old(self).wf(),
        ensures
            final(self).wf(),
            final(self).tags() == old(self).tags(),
            final(self).liquidation_transfer_service_url == old(
                self,
            ).liquidation_transfer_service_url,
            match r {
                Ok(notes) => spec_apply_checkpoint(
                    old(self).tags(),
                    old(self).liquidation_transfer_service_url@,
                    old(self).store(),
                    checkpoint@,
                ) == Some((final(self).store(), notes@.map_values(|n: Notification| n@))),
                Err(e) => spec_apply_checkpoint(
                    old(self).tags(),
                    old(self).liquidation_transfer_service_url@,
                    old(self).store(),
                    checkpoint@,
                ) is None && final(self).store() == old(self).store() && e.timestamp_ms
                    == checkpoint@.timestamp_ms,
            },
    {
        let checkpoint_time = match Self::timestamp_ms_to_datetime(checkpoint.timestamp_ms) {
            Ok(t) => t,
            Err(e) => {
                return Err(e);
            },
        };
        let ghost tags0 = self.tags();
        let ghost url0 = self.liquidation_transfer_service_url@;
        let ghost store0 = self.store();
        let ghost txs_v = checkpoint@.transactions;
        let mut notes: Vec<Notification> = Vec::new();
        let n_tx = checkpoint.transactions.len();
        let mut i: usize = 0;
        proof {
            assert(txs_v.skip(0) =~= txs_v);
            let (sf, nf) = spec_apply_transactions(tags0, url0, store0, txs_v, checkpoint_time);
            assert(notes@.map_values(|n: Notification| n@) =~= Seq::<NotificationV>::empty());
            assert(notes@.map_values(|n: Notification| n@) + nf =~= nf);
        }
        while i < n_tx
            invariant
                self.wf(),
                self.tags() == tags0,
                self.liquidation_transfer_service_url@ == url0,
                self.liquidation_transfer_service_url == old(
                    self,
                ).liquidation_transfer_service_url,
                tags0 == old(self).tags(),
                url0 == old(self).liquidation_transfer_service_url@,
                store0 == old(self).store(),
                txs_v == checkpoint@.transactions,
                n_tx == checkpoint.transactions@.len(),
                i <= n_tx,
                ({
                    let (sf, nf) = spec_apply_transactions(
                        tags0,
                        url0,
                        store0,
                        txs_v,
                        checkpoint_time,
                    );
                    let (sr, nr) = spec_apply_transactions(
                        tags0,
                        url0,
                        self.store(),
                        txs_v.skip(i as int),
                        checkpoint_time,
                    );
                    sf == sr && nf == notes@.map_values(|n: Notification| n@) + nr
                }),
            decreases n_tx - i,
        {
            let transaction = &checkpoint.transactions[i];
            proof {
                assert(txs_v[i as int] == transaction@);
                assert(txs_v.skip(i as int)[0] == txs_v[i as int]);
                assert(txs_v.skip(i as int).drop_first() =~= txs_v.skip(i + 1));
            }
            match &transaction.events {
                None => {
                    proof {
                        assert(transaction@.events is None);
                        let (srn, nrn) = spec_apply_transactions(
                            tags0,
                            url0,
                            self.store(),
                            txs_v.skip(i + 1),
                            checkpoint_time,
                        );
                        assert(notes@.map_values(|n: Notification| n@) + (Seq::<
                            NotificationV,
                        >::empty() + nrn) =~= notes@.map_values(|n: Notification| n@) + nrn);
                    }
                },
                Some(events) => {
                    let ghost events_v = transaction@.events.unwrap();
                    proof {
                        assert(events_v == events@.map_values(|e: EventPayload| e@));
                    }
                    let n_ev = events.len();
                    let mut j: usize = 0;
                    proof {
                        assert(transaction@.events == Some(events_v));
                        assert(events_v.skip(0) =~= events_v);
                        let (se0, ne0) = spec_apply_events(
                            tags0,
                            url0,
                            self.store(),
                            transaction.digest@,
                            checkpoint_time,
                            events_v,
                        );
                        let (sr2, nr2) = spec_apply_transactions(
                            tags0,
                            url0,
                            se0,
                            txs_v.skip(i + 1),
                            checkpoint_time,
                        );
                        let a = notes@.map_values(|n: Notification| n@);
                        assert(a + (ne0 + nr2) =~= (a + ne0) + nr2);
                    }
                    while j < n_ev
                        invariant
                            self.wf(),
                            self.tags() == tags0,
                            self.liquidation_transfer_service_url@ == url0,
                            self.liquidation_transfer_service_url == old(
                                self,
                            ).liquidation_transfer_service_url,
                            tags0 == old(self).tags(),
                            url0 == old(self).liquidation_transfer_service_url@,
                            store0 == old(self).store(),
                            txs_v == checkpoint@.transactions,
                            n_ev == events@.len(),
                            j <= n_ev,
                            i < txs_v.len(),
                            events_v == events@.map_values(|e: EventPayload| e@),
                            transaction@.digest == transaction.digest@,
                            ({
                                let (se, ne) = spec_apply_events(
                                    tags0,
                                    url0,
                                    self.store(),
                                    transaction.digest@,
                                    checkpoint_time,
                                    events_v.skip(j as int),
                                );
                                let (sr, nr) = spec_apply_transactions(
                                    tags0,
                                    url0,
                                    se,
                                    txs_v.skip(i + 1),
                                    checkpoint_time,
                                );
                                let (sf, nf) = spec_apply_transactions(
                                    tags0,
                                    url0,
                                    store0,
                                    txs_v,
                                    checkpoint_time,
                                );
                                sf == sr && nf == notes@.map_values(|n: Notification| n@) + ne
                                    + nr
                            }),
                        decreases n_ev - j,
                    {
                        let event = &events[j];
                        let ghost store_j = self.store();
                        let ghost notes_before = notes@.map_values(|n: Notification| n@);
                        proof {
                            assert(events_v[j as int] == event@);
                            assert(events_v.skip(j as int)[0] == events_v[j as int]);
                            assert(events_v.skip(j as int).drop_first() =~= events_v.skip(j + 1));
                        }
                        let note = self.apply_event(&transaction.digest, checkpoint_time, event);
                        proof {
                            let (s1, n1) = spec_apply_event(
                                tags0,
                                url0,
                                store_j,
                                transaction.digest@,
                                checkpoint_time,
                                event@,
                            );
                            let (s2, n2) = spec_apply_events(
                                tags0,
                                url0,
                                s1,
                                transaction.digest@,
                                checkpoint_time,
                                events_v.skip(j + 1),
                            );
                            assert(spec_apply_events(
                                tags0,
                                url0,
                                store_j,
                                transaction.digest@,
                                checkpoint_time,
                                events_v.skip(j as int),
                            ) == (s2, n1 + n2));
                        }
                        match note {
                            Some(n) => {
                                let ghost nv = n@;
                                notes.push(n);
                                proof {
                                    assert(notes@.map_values(|x: Notification| x@)
                                        =~= notes_before.push(nv));
                                    assert(notes_before + (seq![nv] + spec_apply_events(
                                        tags0,
                                        url0,
                                        self.store(),
                                        transaction.digest@,
                                        checkpoint_time,
                                        events_v.skip(j + 1),
                                    ).1) =~= notes_before.push(nv) + spec_apply_events(
                                        tags0,
                                        url0,
                                        self.store(),
                                        transaction.digest@,
                                        checkpoint_time,
                                        events_v.skip(j + 1),
                                    ).1);
                                }
                            },
                            None => {
                                proof {
                                    assert(notes_before + (Seq::<NotificationV>::empty()
                                        + spec_apply_events(
                                        tags0,
                                        url0,
                                        self.store(),
                                        transaction.digest@,
                                        checkpoint_time,
                                        events_v.skip(j + 1),
                                    ).1) =~= notes_before + spec_apply_events(
                                        tags0,
                                        url0,
                                        self.store(),
                                        transaction.digest@,
                                        checkpoint_time,
                                        events_v.skip(j + 1),
                                    ).1);
                                }
                            },
                        }
                        j = j + 1;
                    }
                    proof {
                        assert(events_v.skip(n_ev as int) =~= Seq::<EventPayloadV>::empty());
                        let a = notes@.map_values(|n: Notification| n@);
                        let (sr, nr) = spec_apply_transactions(
                            tags0,
                            url0,
                            self.store(),
                            txs_v.skip(i + 1),
                            checkpoint_time,
                        );
                        assert((a + Seq::<NotificationV>::empty()) + nr =~= a + nr);
                    }
                },
            }
            i = i + 1;
        }
        proof {
            assert(txs_v.skip(n_tx as int) =~= Seq::<TransactionV>::empty());
            let (sf, nf) = spec_apply_transactions(tags0, url0, store0, txs_v, checkpoint_time);
            assert(nf =~= notes@.map_values(|n: Notification| n@));
        }
        Ok(notes)
    }
}

/// Callback independence: whether the settlement side owes a notification
/// never changes what is persisted. For a transfer-creation payload the
/// stored tables after processing are a function of the prior store, the
/// digest and the time alone; the notification set alone depends on the
/// vault lookup, and an absent vault skips only the notification.
pub proof fn lemma_callback_independence(
    store: StoreV,
    url: Seq<char>,
    digest: Seq<char>,
    t: i64,
    payload: Seq<u8>,
)
    ensures
        ({
            let (s2, notes) = spec_apply_collateral_transfer_created(store, url, digest, t, payload);
            match spec_decode_collateral_transfer_created(payload) {
                Some(e) => {
                    let row = spec_map_collateral_transfer_created(e, digest, t);
                    s2.collateral_transfers == (if has_key::<CollateralTransfer>(
                        store.collateral_transfers,
                        row.transfer_id,
                    ) {
                        store.collateral_transfers
                    } else {
                        store.collateral_transfers.push(row)
                    }) && (notes.len() == 1 <==> spec_first_for_vault_address(
                        store.vaults,
                        hex0x_of(e.to_vault_address),
                    ) is Some) && (notes.len() == 0 <==> spec_first_for_vault_address(
                        store.vaults,
                        hex0x_of(e.to_vault_address),
                    ) is None)
                },
                None => s2 == store && notes.len() == 0,
            }
        }),
        ({
            let (s2, notes) = spec_apply_vault_transfer_created(store, url, digest, t, payload);
            match spec_decode_vault_transfer_created(payload) {
                Some(e) => {
                    let row = spec_map_vault_transfer_created(e, digest, t);
                    s2.vault_transfers == (if has_key::<VaultTransfer>(
                        store.vault_transfers,
                        row.transfer_id,
                    ) {
                        store.vault_transfers
                    } else {
                        store.vault_transfers.push(row)
                    }) && notes.len() == 1
                },
                None => s2 == store && notes.len() == 0,
            }
        }),
{
}

proof fn lemma_apply_event_store_url_independent(
    tags: TagsV,
    url1: Seq<char>,
    url2: Seq<char>,
    store: StoreV,
    digest: Seq<char>,
    t: i64,
    ev: EventPayloadV,
)
    ensures
        spec_apply_event(tags, url1, store, digest, t, ev).0 == spec_apply_event(
            tags,
            url2,
            store,
            digest,
            t,
            ev,
        ).0,
{
    assert(spec_apply_collateral_transfer_created(store, url1, digest, t, ev.payload).0
        == spec_apply_collateral_transfer_created(store, url2, digest, t, ev.payload).0);
    assert(spec_apply_vault_transfer_created(store, url1, digest, t, ev.payload).0
        == spec_apply_vault_transfer_created(store, url2, digest, t, ev.payload).0);
}

proof fn lemma_apply_events_store_url_independent(
    tags: TagsV,
    url1: Seq<char>,
    url2: Seq<char>,
    store: StoreV,
    digest: Seq<char>,
    t: i64,
    events: Seq<EventPayloadV>,
)
    ensures
        spec_apply_events(tags, url1, store, digest, t, events).0 == spec_apply_events(
            tags,
            url2,
            store,
            digest,
            t,
            events,
        ).0,
    decreases events.len(),
{
    if events.len() > 0 {
        lemma_apply_event_store_url_independent(tags, url1, url2, store, digest, t, events[0]);
        let s1 = spec_apply_event(tags, url1, store, digest, t, events[0]).0;
        lemma_apply_events_store_url_independent(
            tags,
            url1,
            url2,
            s1,
            digest,
            t,
            events.drop_first(),
        );
    }
}

proof fn lemma_apply_transactions_store_url_independent(
    tags: TagsV,
    url1: Seq<char>,
    url2: Seq<char>,
    store: StoreV,
    txs: Seq<TransactionV>,
    t: i64,
)
    ensures
        spec_apply_transactions(tags, url1, store, txs, t).0 == spec_apply_transactions(
            tags,
            url2,
            store,
            txs,
            t,
        ).0,
    decreases txs.len(),
{
    if txs.len() > 0 {
        let s1 = match txs[0].events {
            None => store,
            Some(evs) => spec_apply_events(tags, url1, store, txs[0].digest, t, evs).0,
        };
        match txs[0].events {
            None => {},
            Some(evs) => {
                lemma_apply_events_store_url_independent(
                    tags,
                    url1,
                    url2,
                    store,
                    txs[0].digest,
                    t,
                    evs,
                );
            },
        }
        lemma_apply_transactions_store_url_independent(
            tags,
            url1,
            url2,
            s1,
            txs.drop_first(),
            t,
        );
    }
}

/// The settlement side never shapes persistence: processing a checkpoint
/// stores the same rows under any service URL, and fails on the same
/// checkpoints; only the notification values depend on where (and hence
/// whether) they will be delivered.
pub proof fn lemma_persistence_independent_of_settlement(
    tags: TagsV,
    url1: Seq<char>,
    url2: Seq<char>,
    store: StoreV,
    cp: CheckpointV,
)
    ensures
        match (spec_apply_checkpoint(tags, url1, store, cp), spec_apply_checkpoint(
            tags,
            url2,
            store,
            cp,
        )) {
            (Some(a), Some(b)) => a.0 == b.0,
            (None, None) => true,
            _ => false,
        },
{
    match spec_checkpoint_time(cp.timestamp_ms) {
        None => {},
        Some(t) => {
            lemma_apply_transactions_store_url_independent(
                tags,
                url1,
                url2,
                store,
                cp.transactions,
                t,
            );
        },
    }
}

} // verus!
