//! Repository for collateral-deposit rows: resolve-on-conflict insert keyed
//! by transaction hash, and the live-collateral projection. "Live" is never
//! stored: a deposit is live exactly while its marker is absent from every
//! consuming-event table — liquidations, destroying withdrawals, and
//! combinations that consumed it as a source. The three anti-join predicates
//! are independent; any one consuming row excludes the marker.
use vstd::prelude::*;

verus! {

use crate::StoreError;
use crate::db::models::{CollateralCombineEventV, CollateralDepositEvent, CollateralDepositEventV,
    CollateralMarkerLiquidatedEventV, CollateralWithdrawEventV};
use crate::db::repositories::collateral_combine_event::{CollateralCombineEventRepository,
    combined_source_marker};
use crate::db::repositories::collateral_marker_liquidated_event::{
    CollateralMarkerLiquidatedEventRepository, liquidated_marker};
use crate::db::repositories::collateral_withdraw_event::{CollateralWithdrawEventRepository,
    withdrawn_destroyed_marker};
use crate::db::table::{Table, unique_keys, spec_create, spec_find, KeyedRecord};

/// A marker is consumed once any consuming-event table references it:
/// liquidated, withdrawn with the marker destroyed, or combined as either
/// source of a combination.
pub open spec fn marker_consumed(
    marker: Seq<char>,
    liqs: Seq<CollateralMarkerLiquidatedEventV>,
    wds: Seq<CollateralWithdrawEventV>,
    cmbs: Seq<CollateralCombineEventV>,
) -> bool {
    liquidated_marker(liqs, marker) || withdrawn_destroyed_marker(wds, marker)
        || combined_source_marker(cmbs, marker)
}

/// A deposit row is live collateral of the account exactly when it belongs
/// to the account and its marker is consumed by no consuming event.
pub open spec fn live_deposit(
    d: CollateralDepositEventV,
    account: Seq<char>,
    liqs: Seq<CollateralMarkerLiquidatedEventV>,
    wds: Seq<CollateralWithdrawEventV>,
    cmbs: Seq<CollateralCombineEventV>,
) -> bool {
    d.account_id == account && !marker_consumed(d.collateral_marker_id, liqs, wds, cmbs)
}

/// The live collateral of an account: its deposit rows, in insertion order,
/// whose markers no consuming event references.
pub open spec fn spec_live_collateral(
    deps: Seq<CollateralDepositEventV>,
    account: Seq<char>,
    liqs: Seq<CollateralMarkerLiquidatedEventV>,
    wds: Seq<CollateralWithdrawEventV>,
    cmbs: Seq<CollateralCombineEventV>,
) -> Seq<CollateralDepositEventV>
    decreases deps.len(),
{
    if deps.len() == 0 {
        Seq::empty()
    } else {
        let rest = spec_live_collateral(deps.drop_last(), account, liqs, wds, cmbs);
        if live_deposit(deps.last(), account, liqs, wds, cmbs) {
            rest.push(deps.last())
        } else {
            rest
        }
    }
}

/// A deposit whose marker appears in any consuming-event table never
/// appears in the live-collateral projection; a deposit of the account
/// whose marker appears in none always does.
pub proof fn lemma_live_collateral_exact(
    deps: Seq<CollateralDepositEventV>,
    account: Seq<char>,
    liqs: Seq<CollateralMarkerLiquidatedEventV>,
    wds: Seq<CollateralWithdrawEventV>,
    cmbs: Seq<CollateralCombineEventV>,
)
    ensures
        forall|i: int|
            0 <= i < spec_live_collateral(deps, account, liqs, wds, cmbs).len() ==> deps.contains(
                #[trigger] spec_live_collateral(deps, account, liqs, wds, cmbs)[i],
            ) && live_deposit(
                spec_live_collateral(deps, account, liqs, wds, cmbs)[i],
                account,
                liqs,
                wds,
                cmbs,
            ),
        forall|j: int|
            0 <= j < deps.len() && #[trigger] live_deposit(deps[j], account, liqs, wds, cmbs)
                ==> spec_live_collateral(deps, account, liqs, wds, cmbs).contains(deps[j]),
    decreases deps.len(),
{
    let out = spec_live_collateral(deps, account, liqs, wds, cmbs);
    if deps.len() > 0 {
        let prefix = deps.drop_last();
        lemma_live_collateral_exact(prefix, account, liqs, wds, cmbs);
        let sub = spec_live_collateral(prefix, account, liqs, wds, cmbs);
        assert forall|i: int| 0 <= i < out.len() implies deps.contains(out[i]) && live_deposit(
            out[i],
            account,
            liqs,
            wds,
            cmbs,
        ) by {
            if i < sub.len() {
                assert(sub[i] == out[i]);
                assert(prefix.contains(sub[i]));
                let w = choose|w: int| 0 <= w < prefix.len() && prefix[w] == sub[i];
                assert(deps[w] == sub[i]);
            } else {
                assert(out[i] == deps.last());
                assert(deps[deps.len() - 1] == deps.last());
            }
        }
        assert forall|j: int|
            0 <= j < deps.len() && live_deposit(deps[j], account, liqs, wds, cmbs) implies out.contains(
            deps[j],
        ) by {
            if j == deps.len() - 1 {
                assert(out[out.len() - 1] == deps[j]);
            } else {
                assert(prefix[j] == deps[j]);
                assert(sub.contains(deps[j]));
                let w = choose|w: int| 0 <= w < sub.len() && sub[w] == deps[j];
                assert(out[w] == deps[j]);
            }
        }
    }
}

/// Restriction of the live-collateral projection to one token.
pub open spec fn spec_live_collateral_for_token(
    deps: Seq<CollateralDepositEventV>,
    account: Seq<char>,
    token: Seq<char>,
    liqs: Seq<CollateralMarkerLiquidatedEventV>,
    wds: Seq<CollateralWithdrawEventV>,
    cmbs: Seq<CollateralCombineEventV>,
) -> Seq<CollateralDepositEventV>
    decreases deps.len(),
{
    if deps.len() == 0 {
        Seq::empty()
    } else {
        let rest = spec_live_collateral_for_token(deps.drop_last(), account, token, liqs, wds, cmbs);
        if live_deposit(deps.last(), account, liqs, wds, cmbs) && deps.last().token_address
            == token {
            rest.push(deps.last())
        } else {
            rest
        }
    }
}

pub struct CollateralDepositEventRepository {
    table: Table<CollateralDepositEvent>,
}

impl View for CollateralDepositEventRepository {
    type V = Seq<CollateralDepositEventV>;

    closed spec fn view(&self) -> Seq<CollateralDepositEventV> {
        self.table@
    }
}

impl CollateralDepositEventRepository {
    pub closed spec fn wf(&self) -> bool {
        self.table.wf()
    }

    /// The invariant means no two visible rows share a transaction hash.
    pub proof fn lemma_wf_unique_keys(&self)
        requires
            self.wf(),
        ensures
            unique_keys::<CollateralDepositEvent>(self@),
    {
    }

    pub fn new() -> (r: Self)
        ensures
            r@ =~= Seq::<CollateralDepositEventV>::empty(),
            r.wf(),
    {
        CollateralDepositEventRepository { table: Table::new() }
    }

    /// Idempotent insert: a replay of the same transaction stores nothing
    /// and returns the existing row.
    pub fn create(&mut self, new_event: CollateralDepositEvent) -> (r: Result<
        CollateralDepositEvent,
        StoreError,
    >)
        requires
            old(self).wf(),
        ensures
            final(self).wf(),
            final(self)@ == spec_create::<CollateralDepositEvent>(old(self)@, new_event@).0,
            match r {
                Ok(row) => row@ == spec_create::<CollateralDepositEvent>(
                    old(self)@,
                    new_event@,
                ).1,
                Err(_) => false,
            },
    {
        Ok(self.table.create(new_event))
    }

    /// Point lookup by transaction hash.
    pub fn find(&self, tx_hash: &String) -> (r: Option<CollateralDepositEvent>)
        ensures
            match r {
                Some(row) => spec_find::<CollateralDepositEvent>(self@, tx_hash@) == Some(row@),
                None => spec_find::<CollateralDepositEvent>(self@, tx_hash@) is None,
            },
    {
        self.table.find(tx_hash)
    }

    /// The live collateral of an account: every deposit row of the account
    /// whose marker no consuming event references.
    pub fn find_by_account_id(
        &self,
        target_account_id: &String,
        liquidations: &CollateralMarkerLiquidatedEventRepository,
        withdraws: &CollateralWithdrawEventRepository,
        combines: &CollateralCombineEventRepository,
    ) -> (r: Vec<CollateralDepositEvent>)
        ensures
            r@.map_values(|x: CollateralDepositEvent| x@) == spec_live_collateral(
                self@,
                target_account_id@,
                liquidations@,
                withdraws@,
                combines@,
            ),
    {
        let rows = self.table.rows();
        let n = rows.len();
        let mut out: Vec<CollateralDepositEvent> = Vec::new();
        let mut i: usize = 0;
        while i < n
            invariant
                n == rows@.len(),
                rows@.map_values(|x: CollateralDepositEvent| x@) == self@,
                i <= n,
                out@.map_values(|x: CollateralDepositEvent| x@) == spec_live_collateral(
                    self@.take(i as int),
                    target_account_id@,
                    liquidations@,
                    withdraws@,
                    combines@,
                ),
            decreases n - i,
        {
            let row = &rows[i];
            proof {
                assert(self@[i as int] == rows@[i as int]@);
            }
            let ghost prev = out@.map_values(|x: CollateralDepositEvent| x@);
            if row.account_id.eq(target_account_id) && !liquidations.has_marker(
                &row.collateral_marker_id,
            ) && !withdraws.has_destroyed_marker(&row.collateral_marker_id)
                && !combines.consumed_marker(&row.collateral_marker_id) {
                out.push(row.duplicate());
            }
            proof {
                assert(self@.take(i + 1).drop_last() =~= self@.take(i as int));
                assert(self@.take(i + 1).last() == self@[i as int]);
                if live_deposit(
                    self@[i as int],
                    target_account_id@,
                    liquidations@,
                    withdraws@,
                    combines@,
                ) {
                    assert(out@.map_values(|x: CollateralDepositEvent| x@) =~= prev.push(
                        self@[i as int],
                    ));
                } else {
                    assert(out@.map_values(|x: CollateralDepositEvent| x@) =~= prev);
                }
            }
            i = i + 1;
        }
        proof {
            assert(self@.take(n as int) =~= self@);
        }
        out
    }

    /// The live collateral of an account in one token.
    pub fn find_by_account_id_and_token_address(
        &self,
        target_account_id: &String,
        target_token_address: &String,
        liquidations: &CollateralMarkerLiquidatedEventRepository,
        withdraws: &CollateralWithdrawEventRepository,
        combines: &CollateralCombineEventRepository,
    ) -> (r: Vec<CollateralDepositEvent>)
        ensures
            r@.map_values(|x: CollateralDepositEvent| x@) == spec_live_collateral_for_token(
                self@,
                target_account_id@,
                target_token_address@,
                liquidations@,
                withdraws@,
                combines@,
            ),
    {
        let rows = self.table.rows();
        let n = rows.len();
        let mut out: Vec<CollateralDepositEvent> = Vec::new();
        let mut i: usize = 0;
        while i < n
            invariant
                n == rows@.len(),
                rows@.map_values(|x: CollateralDepositEvent| x@) == self@,
                i <= n,
                out@.map_values(|x: CollateralDepositEvent| x@) == spec_live_collateral_for_token(
                    self@.take(i as int),
                    target_account_id@,
                    target_token_address@,
                    liquidations@,
                    withdraws@,
                    combines@,
                ),
            decreases n - i,
        {
            let row = &rows[i];
            proof {
                assert(self@[i as int] == rows@[i as int]@);
            }
            let ghost prev = out@.map_values(|x: CollateralDepositEvent| x@);
            if row.account_id.eq(target_account_id) && row.token_address.eq(target_token_address)
                && !liquidations.has_marker(&row.collateral_marker_id)
                && !withdraws.has_destroyed_marker(&row.collateral_marker_id)
                && !combines.consumed_marker(&row.collateral_marker_id) {
                out.push(row.duplicate());
            }
            proof {
                assert(self@.take(i + 1).drop_last() =~= self@.take(i as int));
                assert(self@.take(i + 1).last() == self@[i as int]);
                if live_deposit(
                    self@[i as int],
                    target_account_id@,
                    liquidations@,
                    withdraws@,
                    combines@,
                ) && self@[i as int].token_address == target_token_address@ {
                    assert(out@.map_values(|x: CollateralDepositEvent| x@) =~= prev.push(
                        self@[i as int],
                    ));
                } else {
                    assert(out@.map_values(|x: CollateralDepositEvent| x@) =~= prev);
                }
            }
            i = i + 1;
        }
        proof {
            assert(self@.take(n as int) =~= self@);
        }
        out
    }
}

} // verus!
