//! Repository for marker-liquidated rows: resolve-on-conflict insert keyed
//! by transaction hash, and the marker scan consumed by the live-collateral
//! anti-join.
use vstd::prelude::*;

verus! {

use crate::StoreError;
use crate::db::models::{CollateralMarkerLiquidatedEvent, CollateralMarkerLiquidatedEventV};
use crate::db::table::{Table, unique_keys, spec_create, spec_find, KeyedRecord};

/// Whether some marker-liquidated row records the given marker.
pub open spec fn liquidated_marker(
    liqs: Seq<CollateralMarkerLiquidatedEventV>,
    marker: Seq<char>,
) -> bool {
    exists|j: int| 0 <= j < liqs.len() && liqs[j].collateral_marker_id == marker
}

pub struct CollateralMarkerLiquidatedEventRepository {
    table: Table<CollateralMarkerLiquidatedEvent>,
}

impl View for CollateralMarkerLiquidatedEventRepository {
    type V = Seq<CollateralMarkerLiquidatedEventV>;

    closed spec fn view(&self) -> Seq<CollateralMarkerLiquidatedEventV> {
        self.table@
    }
}

impl CollateralMarkerLiquidatedEventRepository {
    pub closed spec fn wf(&self) -> bool {
        self.table.wf()
    }

    /// The invariant means no two visible rows share a transaction hash.
    pub proof fn lemma_wf_unique_keys(&self)
        requires
            self.wf(),
        ensures
            unique_keys::<CollateralMarkerLiquidatedEvent>(self@),
    {
    }

    pub fn new() -> (r: Self)
        ensures
            r@ =~= Seq::<CollateralMarkerLiquidatedEventV>::empty(),
            r.wf(),
    {
        CollateralMarkerLiquidatedEventRepository { table: Table::new() }
    }

    /// Idempotent insert: a replay of the same transaction stores nothing
    /// and returns the existing row.
    pub fn create(&mut self, new_event: CollateralMarkerLiquidatedEvent) -> (r: Result<
        CollateralMarkerLiquidatedEvent,
        StoreError,
    >)
        requires
            old(self).wf(),
        ensures
            final(self).wf(),
            final(self)@ == spec_create::<CollateralMarkerLiquidatedEvent>(
                old(self)@,
                new_event@,
            ).0,
            match r {
                Ok(row) => row@ == spec_create::<CollateralMarkerLiquidatedEvent>(
                    old(self)@,
                    new_event@,
                ).1,
                Err(_) => false,
            },
    {
        Ok(self.table.create(new_event))
    }

    /// Point lookup by transaction hash.
    pub fn find(&self, tx_hash: &String) -> (r: Option<CollateralMarkerLiquidatedEvent>)
        ensures
            match r {
                Some(row) => spec_find::<CollateralMarkerLiquidatedEvent>(self@, tx_hash@) == Some(
                    row@,
                ),
                None => spec_find::<CollateralMarkerLiquidatedEvent>(self@, tx_hash@) is None,
            },
    {
        self.table.find(tx_hash)
    }

    /// All stored rows, in insertion order.
    pub fn get_all(&self) -> (r: Vec<CollateralMarkerLiquidatedEvent>)
        ensures
            r@.map_values(|x: CollateralMarkerLiquidatedEvent| x@) =~= self@,
    {
        self.table.all()
    }

    /// Whether any row liquidates the given marker.
    pub fn has_marker(&self, marker: &String) -> (r: bool)
        ensures
            r == liquidated_marker(self@, marker@),
    {
        let rows = self.table.rows();
        let n = rows.len();
        let mut i: usize = 0;
        while i < n
            invariant
                n == rows@.len(),
                rows@.map_values(|x: CollateralMarkerLiquidatedEvent| x@) == self@,
                i <= n,
                forall|j: int| 0 <= j < i ==> self@[j].collateral_marker_id != marker@,
            decreases n - i,
        {
            proof {
                assert(self@[i as int] == rows@[i as int]@);
            }
            if rows[i].collateral_marker_id.eq(marker) {
                return true;
            }
            i = i + 1;
        }
        false
    }
}

} // verus!
