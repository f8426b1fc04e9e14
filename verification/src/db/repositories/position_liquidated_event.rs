//! Repository for position-liquidated rows: resolve-on-conflict insert keyed
//! by transaction hash, point lookup, and the full scan behind the
//! liquidations read surface.
use vstd::prelude::*;

verus! {

use crate::StoreError;
use crate::db::models::{PositionLiquidatedEvent, PositionLiquidatedEventV};
use crate::db::table::{Table, unique_keys, spec_create, spec_find};

pub struct PositionLiquidatedEventRepository {
    table: Table<PositionLiquidatedEvent>,
}

impl View for PositionLiquidatedEventRepository {
    type V = Seq<PositionLiquidatedEventV>;

    closed spec fn view(&self) -> Seq<PositionLiquidatedEventV> {
        self.table@
    }
}

impl PositionLiquidatedEventRepository {
    pub closed spec fn wf(&self) -> bool {
        self.table.wf()
    }

    /// The invariant means no two visible rows share a transaction hash.
    pub proof fn lemma_wf_unique_keys(&self)
        requires
            self.wf(),
        ensures
            unique_keys::<PositionLiquidatedEvent>(self@),
    {
    }

    pub fn new() -> (r: Self)
        ensures
            r@ =~= Seq::<PositionLiquidatedEventV>::empty(),
            r.wf(),
    {
        PositionLiquidatedEventRepository { table: Table::new() }
    }

    /// Idempotent insert: a replay of the same transaction stores nothing
    /// and returns the existing row.
    pub fn create(&mut self, new_event: PositionLiquidatedEvent) -> (r: Result<
        PositionLiquidatedEvent,
        StoreError,
    >)
        requires
            old(self).wf(),
        ensures
            final(self).wf(),
            final(self)@ == spec_create::<PositionLiquidatedEvent>(old(self)@, new_event@).0,
            match r {
                Ok(row) => row@ == spec_create::<PositionLiquidatedEvent>(
                    old(self)@,
                    new_event@,
                ).1,
                Err(_) => false,
            },
    {
        Ok(self.table.create(new_event))
    }

    /// Point lookup by transaction hash.
    pub fn find(&self, tx_hash: &String) -> (r: Option<PositionLiquidatedEvent>)
        ensures
            match r {
                Some(row) => spec_find::<PositionLiquidatedEvent>(self@, tx_hash@) == Some(row@),
                None => spec_find::<PositionLiquidatedEvent>(self@, tx_hash@) is None,
            },
    {
        self.table.find(tx_hash)
    }

    /// All stored rows, in insertion order.
    pub fn get_all(&self) -> (r: Vec<PositionLiquidatedEvent>)
        ensures
            r@.map_values(|x: PositionLiquidatedEvent| x@) =~= self@,
    {
        self.table.all()
    }
}

} // verus!
