//! The compute cores of the read surface: converting stored rows back into
//! response values (hex strings decoded to 32-byte identifiers, never
//! partially) and the found/not-found decisions. The HTTP layer around
//! them is a thin pass-through of the surrounding process.
use vstd::prelude::*;

verus! {

use crate::db::models::{CollateralDepositEventV as CollateralDepositRowV, NewAccountEvent as
    NewAccountRow, StartCollateralValueAssertionEventV as StartCvaRowV,
    StartCollateralValueAssertionEvent as StartCvaRow};
use crate::db::repositories::collateral_combine_event::CollateralCombineEventRepository;
use crate::db::repositories::collateral_deposit_event::{CollateralDepositEventRepository,
    spec_live_collateral, spec_live_collateral_for_token};
use crate::db::repositories::collateral_marker_liquidated_event::CollateralMarkerLiquidatedEventRepository;
use crate::db::repositories::collateral_withdraw_event::CollateralWithdrawEventRepository;
use crate::db::repositories::new_account_event::{NewAccountEventRepository,
    spec_first_for_account};
use crate::db::repositories::start_collateral_value_assertion_event::StartCollateralValueAssertionEventRepository;
use crate::db::table::KeyedRecord;
use crate::text::{hex_decode, hex_decode_spec};

/// A read-surface failure: the row set was empty, or a stored value could
/// not be converted back.
#[derive(Debug, Clone, Copy, PartialEq, Eq, Structural)]
pub enum ApiError {
    NotFound,
    Internal,
}

/// The token a collateral row is denominated in.
#[derive(Debug)]
pub struct TokenIdentifier {
    pub token_address: String,
}

/// A collateral row as served by the read surface, identifiers decoded
/// back to their 32 bytes.
#[derive(Debug)]
pub struct CollateralResponse {
    pub collateral_id: [u8; 32],
    pub collateral_marker_id: [u8; 32],
    pub account_id: [u8; 32],
    pub token_id: TokenIdentifier,
    pub amount: u64,
}

pub struct CollateralResponseV {
    pub collateral_id: Seq<u8>,
    pub collateral_marker_id: Seq<u8>,
    pub account_id: Seq<u8>,
    pub token_address: Seq<char>,
    pub amount: u64,
}

impl View for CollateralResponse {
    type V = CollateralResponseV;

    open spec fn view(&self) -> CollateralResponseV {
        CollateralResponseV {
            collateral_id: self.collateral_id@,
            collateral_marker_id: self.collateral_marker_id@,
            account_id: self.account_id@,
            token_address: self.token_id.token_address@,
            amount: self.amount,
        }
    }
}

/// An assertion-start row as served by the read surface.
#[derive(Debug)]
pub struct CollateralAssertionResponse {
    pub cva_id: [u8; 32],
    pub transaction_hash: String,
    pub account_id: [u8; 32],
    pub program_id: [u8; 32],
    pub num_open_collateral_objects: i64,
    pub timestamp: i64,
}

pub struct CollateralAssertionResponseV {
    pub cva_id: Seq<u8>,
    pub transaction_hash: Seq<char>,
    pub account_id: Seq<u8>,
    pub program_id: Seq<u8>,
    pub num_open_collateral_objects: i64,
    pub timestamp: i64,
}

impl View for CollateralAssertionResponse {
    type V = CollateralAssertionResponseV;

    open spec fn view(&self) -> CollateralAssertionResponseV {
        CollateralAssertionResponseV {
            cva_id: self.cva_id@,
            transaction_hash: self.transaction_hash@,
            account_id: self.account_id@,
            program_id: self.program_id@,
            num_open_collateral_objects: self.num_open_collateral_objects,
            timestamp: self.timestamp,
        }
    }
}

/// A stored hex identifier decoded back to exactly 32 bytes; anything else
/// fails the conversion.
pub open spec fn spec_decode_id(s: Seq<char>) -> Option<Seq<u8>> {
    match hex_decode_spec(s) {
        Some(bytes) => if bytes.len() == 32 {
            Some(bytes)
        } else {
            None
        },
        None => None,
    }
}

fn decode_id(s: &String) -> (r: Option<[u8; 32]>)
    ensures
        match r {
            Some(arr) => spec_decode_id(s@) == Some(arr@),
            None => spec_decode_id(s@) is None,
        },
{
    match hex_decode(s) {
        None => None,
        Some(bytes) => {
            if bytes.len() != 32 {
                return None;
            }
            let mut arr: [u8; 32] = [0u8; 32];
            let mut i: usize = 0;
            while i < 32
                invariant
                    i <= 32,
                    bytes@.len() == 32,
                    forall|k: int| 0 <= k < i ==> arr@[k] == bytes@[k],
                decreases 32 - i,
            {
                arr[i] = bytes[i];
                i = i + 1;
            }
            proof {
                assert(arr@ =~= bytes@);
            }
            Some(arr)
        },
    }
}

/// The response a stored collateral row converts to, or nothing when one
/// of its identifiers does not decode to 32 bytes.
pub open spec fn spec_map_db_event_to_response(row: CollateralDepositRowV) -> Option<
    CollateralResponseV,
> {
    match spec_decode_id(row.collateral_id) {
        None => None,
        Some(collateral_id) => match spec_decode_id(row.collateral_marker_id) {
            None => None,
            Some(collateral_marker_id) => match spec_decode_id(row.account_id) {
                None => None,
                Some(account_id) => Some(
                    CollateralResponseV {
                        collateral_id,
                        collateral_marker_id,
                        account_id,
                        token_address: row.token_address,
                        amount: row.amount,
                    },
                ),
            },
        },
    }
}

/// Converts a stored collateral row to its response form; a row whose
/// identifiers do not decode yields no partial response.
pub fn map_db_event_to_response(db_event: crate::db::models::CollateralDepositEvent) -> (r: Result<
    CollateralResponse,
    ApiError,
>)
    ensures
        match r {
            Ok(resp) => spec_map_db_event_to_response(db_event@) == Some(resp@),
            Err(_) => spec_map_db_event_to_response(db_event@) is None,
        },
{
    let collateral_id = match decode_id(&db_event.collateral_id) {
        Some(a) => a,
        None => {
            return Err(ApiError::Internal);
        },
    };
    let collateral_marker_id = match decode_id(&db_event.collateral_marker_id) {
        Some(a) => a,
        None => {
            return Err(ApiError::Internal);
        },
    };
    let account_id = match decode_id(&db_event.account_id) {
        Some(a) => a,
        None => {
            return Err(ApiError::Internal);
        },
    };
    Ok(
        CollateralResponse {
            collateral_id,
            collateral_marker_id,
            account_id,
            token_id: TokenIdentifier { token_address: db_event.token_address },
            amount: db_event.amount,
        },
    )
}

/// The response a stored assertion row converts to, or nothing when one of
/// its identifiers does not decode to 32 bytes.
pub open spec fn spec_map_db_cva_event_to_response(row: StartCvaRowV) -> Option<
    CollateralAssertionResponseV,
> {
    match spec_decode_id(row.cva_id) {
        None => None,
        Some(cva_id) => match spec_decode_id(row.account_id) {
            None => None,
            Some(account_id) => match spec_decode_id(row.program_id) {
                None => None,
                Some(program_id) => Some(
                    CollateralAssertionResponseV {
                        cva_id,
                        transaction_hash: row.transaction_hash,
                        account_id,
                        program_id,
                        num_open_collateral_objects: row.num_open_collateral_objects,
                        timestamp: row.timestamp,
                    },
                ),
            },
        },
    }
}

/// Converts a stored assertion row to its response form.
pub fn map_db_cva_event_to_response(db_event: StartCvaRow) -> (r: Result<
    CollateralAssertionResponse,
    ApiError,
>)
    ensures
        match r {
            Ok(resp) => spec_map_db_cva_event_to_response(db_event@) == Some(resp@),
            Err(_) => spec_map_db_cva_event_to_response(db_event@) is None,
        },
{
    let cva_id = match decode_id(&db_event.cva_id) {
        Some(a) => a,
        None => {
            return Err(ApiError::Internal);
        },
    };
    let account_id = match decode_id(&db_event.account_id) {
        Some(a) => a,
        None => {
            return Err(ApiError::Internal);
        },
    };
    let program_id = match decode_id(&db_event.program_id) {
        Some(a) => a,
        None => {
            return Err(ApiError::Internal);
        },
    };
    Ok(
        CollateralAssertionResponse {
            cva_id,
            transaction_hash: db_event.transaction_hash,
            account_id,
            program_id,
            num_open_collateral_objects: db_event.num_open_collateral_objects,
            timestamp: db_event.timestamp,
        },
    )
}

/// The responses of the convertible rows, in order; rows that fail the
/// conversion are dropped.
pub open spec fn spec_map_rows_to_responses(rows: Seq<CollateralDepositRowV>) -> Seq<
    CollateralResponseV,
>
    decreases rows.len(),
{
    if rows.len() == 0 {
        Seq::empty()
    } else {
        let rest = spec_map_rows_to_responses(rows.drop_last());
        match spec_map_db_event_to_response(rows.last()) {
            Some(resp) => rest.push(resp),
            None => rest,
        }
    }
}

/// The live collateral of an account, served as responses: not-found
/// exactly when the account has no live deposit rows at all; otherwise the
/// convertible rows, converted.
pub fn get_account_collateral(
    account_id: &String,
    deposits: &CollateralDepositEventRepository,
    liquidations: &CollateralMarkerLiquidatedEventRepository,
    withdraws: &CollateralWithdrawEventRepository,
    combines: &CollateralCombineEventRepository,
) -> (r: Result<Vec<CollateralResponse>, ApiError>)
    ensures
        ({
            let live = spec_live_collateral(
                deposits@,
                account_id@,
                liquidations@,
                withdraws@,
                combines@,
            );
            match r {
                Ok(resps) => live.len() > 0 && resps@.map_values(|x: CollateralResponse| x@)
                    == spec_map_rows_to_responses(live),
                Err(e) => live.len() == 0 && e == ApiError::NotFound,
            }
        }),
{
    let rows = deposits.find_by_account_id(account_id, liquidations, withdraws, combines);
    if rows.len() == 0 {
        proof {
            assert(spec_live_collateral(
                deposits@,
                account_id@,
                liquidations@,
                withdraws@,
                combines@,
            ) =~= rows@.map_values(|x: crate::db::models::CollateralDepositEvent| x@));
        }
        return Err(ApiError::NotFound);
    }
    let ghost live = rows@.map_values(|x: crate::db::models::CollateralDepositEvent| x@);
    let mut out: Vec<CollateralResponse> = Vec::new();
    let n = rows.len();
    let mut i: usize = 0;
    while i < n
        invariant
            n == rows@.len(),
            i <= n,
            live == rows@.map_values(|x: crate::db::models::CollateralDepositEvent| x@),
            out@.map_values(|x: CollateralResponse| x@) == spec_map_rows_to_responses(
                live.take(i as int),
            ),
        decreases n - i,
    {
        let ghost prev = out@.map_values(|x: CollateralResponse| x@);
        let row = rows[i].duplicate();
        proof {
            assert(live[i as int] == rows@[i as int]@);
            assert(live.take(i + 1).drop_last() =~= live.take(i as int));
            assert(live.take(i + 1).last() == live[i as int]);
        }
        match map_db_event_to_response(row) {
            Ok(resp) => {
                out.push(resp);
                proof {
                    assert(out@.map_values(|x: CollateralResponse| x@) =~= prev.push(
                        spec_map_db_event_to_response(live[i as int]).unwrap(),
                    ));
                }
            },
            Err(_) => {},
        }
        i = i + 1;
    }
    proof {
        assert(live.take(n as int) =~= live);
    }
    Ok(out)
}

/// The live collateral of an account in one token, served as responses.
pub fn get_account_collateral_by_token_address(
    account_id: &String,
    token_address: &String,
    deposits: &CollateralDepositEventRepository,
    liquidations: &CollateralMarkerLiquidatedEventRepository,
    withdraws: &CollateralWithdrawEventRepository,
    combines: &CollateralCombineEventRepository,
) -> (r: Result<Vec<CollateralResponse>, ApiError>)
    ensures
        ({
            let live = spec_live_collateral_for_token(
                deposits@,
                account_id@,
                token_address@,
                liquidations@,
                withdraws@,
                combines@,
            );
            match r {
                Ok(resps) => live.len() > 0 && resps@.map_values(|x: CollateralResponse| x@)
                    == spec_map_rows_to_responses(live),
                Err(e) => live.len() == 0 && e == ApiError::NotFound,
            }
        }),
{
    let rows = deposits.find_by_account_id_and_token_address(
        account_id,
        token_address,
        liquidations,
        withdraws,
        combines,
    );
    if rows.len() == 0 {
        proof {
            assert(spec_live_collateral_for_token(
                deposits@,
                account_id@,
                token_address@,
                liquidations@,
                withdraws@,
                combines@,
            ) =~= rows@.map_values(|x: crate::db::models::CollateralDepositEvent| x@));
        }
        return Err(ApiError::NotFound);
    }
    let ghost live = rows@.map_values(|x: crate::db::models::CollateralDepositEvent| x@);
    let mut out: Vec<CollateralResponse> = Vec::new();
    let n = rows.len();
    let mut i: usize = 0;
    while i < n
        invariant
            n == rows@.len(),
            i <= n,
            live == rows@.map_values(|x: crate::db::models::CollateralDepositEvent| x@),
            out@.map_values(|x: CollateralResponse| x@) == spec_map_rows_to_responses(
                live.take(i as int),
            ),
        decreases n - i,
    {
        let ghost prev = out@.map_values(|x: CollateralResponse| x@);
        let row = rows[i].duplicate();
        proof {
            assert(live[i as int] == rows@[i as int]@);
            assert(live.take(i + 1).drop_last() =~= live.take(i as int));
            assert(live.take(i + 1).last() == live[i as int]);
        }
        match map_db_event_to_response(row) {
            Ok(resp) => {
                out.push(resp);
                proof {
                    assert(out@.map_values(|x: CollateralResponse| x@) =~= prev.push(
                        spec_map_db_event_to_response(live[i as int]).unwrap(),
                    ));
                }
            },
            Err(_) => {},
        }
        i = i + 1;
    }
    proof {
        assert(live.take(n as int) =~= live);
    }
    Ok(out)
}

/// The latest assertion of an account, served as a response: not-found
/// when the account has none, an internal failure when the stored row does
/// not convert.
pub fn get_latest_collateral_assertion_by_account_id(
    account_id: &String,
    assertions: &StartCollateralValueAssertionEventRepository,
) -> (r: Result<CollateralAssertionResponse, ApiError>)
    ensures
        ({
            let latest =
                crate::db::repositories::start_collateral_value_assertion_event::spec_latest_for_account(
                assertions@,
                account_id@,
            );
            match r {
                Ok(resp) => latest is Some && spec_map_db_cva_event_to_response(latest.unwrap())
                    == Some(resp@),
                Err(e) => match latest {
                    None => e == ApiError::NotFound,
                    Some(row) => e == ApiError::Internal && spec_map_db_cva_event_to_response(
                        row,
                    ) is None,
                },
            }
        }),
{
    match assertions.find_latest_by_account_id(account_id) {
        None => Err(ApiError::NotFound),
        Some(row) => match map_db_cva_event_to_response(row) {
            Ok(resp) => Ok(resp),
            Err(_) => Err(ApiError::Internal),
        },
    }
}

/// The account row for an account id: not-found when none is stored.
pub fn get_account_by_id(acc_id: &String, accounts: &NewAccountEventRepository) -> (r: Result<
    NewAccountRow,
    ApiError,
>)
    ensures
        match r {
            Ok(row) => spec_first_for_account(accounts@, acc_id@) == Some(row@),
            Err(e) => spec_first_for_account(accounts@, acc_id@) is None && e
                == ApiError::NotFound,
        },
{
    match accounts.find_by_account_id(acc_id) {
        Some(row) => Ok(row),
        None => Err(ApiError::NotFound),
    }
}

} // verus!
