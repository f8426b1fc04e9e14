//! Repository for collateral-withdraw rows: resolve-on-conflict insert keyed
//! by transaction hash, and the destroyed-marker scan consumed by the
//! live-collateral anti-join.
use vstd::prelude::*;

verus! {

use crate::StoreError;
use crate::db::models::{CollateralWithdrawEvent, CollateralWithdrawEventV};
use crate::db::table::{Table, unique_keys, spec_create, spec_find, KeyedRecord};

/// Whether some withdraw row destroyed the given marker.
pub open spec fn withdrawn_destroyed_marker(
    wds: Seq<CollateralWithdrawEventV>,
    marker: Seq<char>,
) -> bool {
    exists|j: int|
        0 <= j < wds.len() && wds[j].collateral_marker_id == marker && wds[j].marker_destroyed
}

pub struct CollateralWithdrawEventRepository {
    table: Table<CollateralWithdrawEvent>,
}

impl View for CollateralWithdrawEventRepository {
    type V = Seq<CollateralWithdrawEventV>;

    closed spec fn view(&self) -> Seq<CollateralWithdrawEventV> {
        self.table@
    }
}

impl CollateralWithdrawEventRepository {
    pub closed spec fn wf(&self) -> bool {
        self.table.wf()
    }

    /// The invariant means no two visible rows share a transaction hash.
    pub proof fn lemma_wf_unique_keys(&self)
        requires
            self.wf(),
        ensures
            unique_keys::<CollateralWithdrawEvent>(self@),
    {
    }

    pub fn new() -> (r: Self)
        ensures
            r@ =~= Seq::<CollateralWithdrawEventV>::empty(),
            r.wf(),
    {
        CollateralWithdrawEventRepository { table: Table::new() }
    }

    /// Idempotent insert: a replay of the same transaction stores nothing
    /// and returns the existing row.
    pub fn create(&mut self, new_event: CollateralWithdrawEvent) -> (r: Result<
        CollateralWithdrawEvent,
        StoreError,
    >)
        requires
            old(self).wf(),
        ensures
            final(self).wf(),
            final(self)@ == spec_create::<CollateralWithdrawEvent>(old(self)@, new_event@).0,
            match r {
                Ok(row) => row@ == spec_create::<CollateralWithdrawEvent>(
                    old(self)@,
                    new_event@,
                ).1,
                Err(_) => false,
            },
    {
        Ok(self.table.create(new_event))
    }

    /// Point lookup by transaction hash.
    pub fn find(&self, tx_hash: &String) -> (r: Option<CollateralWithdrawEvent>)
        ensures
            match r {
                Some(row) => spec_find::<CollateralWithdrawEvent>(self@, tx_hash@) == Some(row@),
                None => spec_find::<CollateralWithdrawEvent>(self@, tx_hash@) is None,
            },
    {
        self.table.find(tx_hash)
    }

    /// Whether any withdraw row destroyed the given marker.
    pub fn has_destroyed_marker(&self, marker: &String) -> (r: bool)
        ensures
            r == withdrawn_destroyed_marker(self@, marker@),
    {
        let rows = self.table.rows();
        let n = rows.len();
        let mut i: usize = 0;
        while i < n
            invariant
                n == rows@.len(),
                rows@.map_values(|x: CollateralWithdrawEvent| x@) == self@,
                i <= n,
                forall|j: int|
                    0 <= j < i ==> !(self@[j].collateral_marker_id == marker@
                        && self@[j].marker_destroyed),
            decreases n - i,
        {
            proof {
                assert(self@[i as int] == rows@[i as int]@);
            }
            if rows[i].marker_destroyed && rows[i].collateral_marker_id.eq(marker) {
                return true;
            }
            i = i + 1;
        }
        false
    }
}

} // verus!
