//! Repository for position-closed rows: plain insert keyed by transaction
//! hash, point lookup, and the membership scan that the open-positions
//! anti-join consumes.
use vstd::prelude::*;

verus! {

use crate::StoreError;
use crate::db::models::{ClosePositionEvent, ClosePositionEventV};
use crate::db::table::{Table, unique_keys, spec_find, has_key, KeyedRecord};

/// Whether some close row records the given position id.
pub open spec fn has_close(closes: Seq<ClosePositionEventV>, position_id: Seq<char>) -> bool {
    exists|j: int| 0 <= j < closes.len() && closes[j].position_id == position_id
}

pub struct ClosePositionEventRepository {
    table: Table<ClosePositionEvent>,
}

impl View for ClosePositionEventRepository {
    type V = Seq<ClosePositionEventV>;

    closed spec fn view(&self) -> Seq<ClosePositionEventV> {
        self.table@
    }
}

impl ClosePositionEventRepository {
    pub closed spec fn wf(&self) -> bool {
        self.table.wf()
    }

    /// The invariant means no two visible rows share a transaction hash.
    pub proof fn lemma_wf_unique_keys(&self)
        requires
            self.wf(),
        ensures
            unique_keys::<ClosePositionEvent>(self@),
    {
    }

    pub fn new() -> (r: Self)
        ensures
            r@ =~= Seq::<ClosePositionEventV>::empty(),
            r.wf(),
    {
        ClosePositionEventRepository { table: Table::new() }
    }

    /// Plain insert: a second row for the same transaction hash is refused.
    pub fn create(&mut self, new_item: ClosePositionEvent) -> (r: Result<
        ClosePositionEvent,
        StoreError,
    >)
        requires
            old(self).wf(),
        ensures
            final(self).wf(),
            match r {
                Ok(row) => !has_key::<ClosePositionEvent>(old(self)@, new_item@.transaction_hash)
                    && final(self)@ == old(self)@.push(new_item@) && row@ == new_item@,
                Err(e) => has_key::<ClosePositionEvent>(old(self)@, new_item@.transaction_hash)
                    && final(self)@ == old(self)@ && e == StoreError::DuplicateKey,
            },
    {
        self.table.insert_new(new_item)
    }

    /// Point lookup by transaction hash.
    pub fn find(&self, id: String) -> (r: Option<ClosePositionEvent>)
        ensures
            match r {
                Some(row) => spec_find::<ClosePositionEvent>(self@, id@) == Some(row@),
                None => spec_find::<ClosePositionEvent>(self@, id@) is None,
            },
    {
        self.table.find(&id)
    }

    /// Whether a close row exists for the given position id.
    pub fn has_position(&self, position_id: &String) -> (r: bool)
        ensures
            r == has_close(self@, position_id@),
    {
        let rows = self.table.rows();
        let n = rows.len();
        let mut i: usize = 0;
        while i < n
            invariant
                n == rows@.len(),
                rows@.map_values(|x: ClosePositionEvent| x@) == self@,
                i <= n,
                forall|j: int| 0 <= j < i ==> self@[j].position_id != position_id@,
            decreases n - i,
        {
            proof {
                assert(self@[i as int] == rows@[i as int]@);
            }
            if rows[i].position_id.eq(position_id) {
                return true;
            }
            i = i + 1;
        }
        false
    }
}

} // verus!
