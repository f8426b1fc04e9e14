//! Repository for collateral-combine rows: resolve-on-conflict insert keyed
//! by transaction hash, and the consumed-source scan used by the
//! live-collateral anti-join.
use vstd::prelude::*;

verus! {

use crate::StoreError;
use crate::db::models::{CollateralCombineEvent, CollateralCombineEventV};
use crate::db::table::{Table, unique_keys, spec_create, spec_find, KeyedRecord};

/// Whether some combine row consumed the given marker as either source.
pub open spec fn combined_source_marker(
    cmbs: Seq<CollateralCombineEventV>,
    marker: Seq<char>,
) -> bool {
    exists|j: int|
        0 <= j < cmbs.len() && (cmbs[j].old_collateral_marker_id1 == marker
            || cmbs[j].old_collateral_marker_id2 == marker)
}

pub struct CollateralCombineEventRepository {
    table: Table<CollateralCombineEvent>,
}

impl View for CollateralCombineEventRepository {
    type V = Seq<CollateralCombineEventV>;

    closed spec fn view(&self) -> Seq<CollateralCombineEventV> {
        self.table@
    }
}

impl CollateralCombineEventRepository {
    pub closed spec fn wf(&self) -> bool {
        self.table.wf()
    }

    /// The invariant means no two visible rows share a transaction hash.
    pub proof fn lemma_wf_unique_keys(&self)
        requires
            self.wf(),
        ensures
            unique_keys::<CollateralCombineEvent>(self@),
    {
    }

    pub fn new() -> (r: Self)
        ensures
            r@ =~= Seq::<CollateralCombineEventV>::empty(),
            r.wf(),
    {
        CollateralCombineEventRepository { table: Table::new() }
    }

    /// Idempotent insert: a replay of the same transaction stores nothing
    /// and returns the existing row.
    pub fn create(&mut self, new_event: CollateralCombineEvent) -> (r: Result<
        CollateralCombineEvent,
        StoreError,
    >)
        requires
            old(self).wf(),
        ensures
            final(self).wf(),
            final(self)@ == spec_create::<CollateralCombineEvent>(old(self)@, new_event@).0,
            match r {
                Ok(row) => row@ == spec_create::<CollateralCombineEvent>(
                    old(self)@,
                    new_event@,
                ).1,
                Err(_) => false,
            },
    {
        Ok(self.table.create(new_event))
    }

    /// Point lookup by transaction hash.
    pub fn find(&self, tx_hash: &String) -> (r: Option<CollateralCombineEvent>)
        ensures
            match r {
                Some(row) => spec_find::<CollateralCombineEvent>(self@, tx_hash@) == Some(row@),
                None => spec_find::<CollateralCombineEvent>(self@, tx_hash@) is None,
            },
    {
        self.table.find(tx_hash)
    }

    /// Whether any combine row consumed the given marker as a source.
    pub fn consumed_marker(&self, marker: &String) -> (r: bool)
        ensures
            r == combined_source_marker(self@, marker@),
    {
        let rows = self.table.rows();
        let n = rows.len();
        let mut i: usize = 0;
        while i < n
            invariant
                n == rows@.len(),
                rows@.map_values(|x: CollateralCombineEvent| x@) == self@,
                i <= n,
                forall|j: int|
                    0 <= j < i ==> !(self@[j].old_collateral_marker_id1 == marker@
                        || self@[j].old_collateral_marker_id2 == marker@),
            decreases n - i,
        {
            proof {
                assert(self@[i as int] == rows@[i as int]@);
            }
            if rows[i].old_collateral_marker_id1.eq(marker) || rows[
                i
            ].old_collateral_marker_id2.eq(marker) {
                return true;
            }
            i = i + 1;
        }
        false
    }
}

} // verus!
