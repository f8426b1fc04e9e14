//! Repository for vault-transfer rows: plain insert keyed by transfer id,
//! point lookup, and the unfulfilled scan that the external settlement
//! process polls.
use vstd::prelude::*;

verus! {

use crate::StoreError;
use crate::db::models::{VaultTransfer, VaultTransferV};
use crate::db::table::{Table, unique_keys, spec_find, has_key, KeyedRecord};

/// The transfers not yet fulfilled by the settlement process, in insertion
/// order.
pub open spec fn spec_unfulfilled_vault(s: Seq<VaultTransferV>) -> Seq<VaultTransferV>
    decreases s.len(),
{
    if s.len() == 0 {
        Seq::empty()
    } else {
        let rest = spec_unfulfilled_vault(s.drop_last());
        if !s.last().fulfilled {
            rest.push(s.last())
        } else {
            rest
        }
    }
}

pub struct VaultTransferRepository {
    table: Table<VaultTransfer>,
}

impl View for VaultTransferRepository {
    type V = Seq<VaultTransferV>;

    closed spec fn view(&self) -> Seq<VaultTransferV> {
        self.table@
    }
}

impl VaultTransferRepository {
    pub closed spec fn wf(&self) -> bool {
        self.table.wf()
    }

    /// The invariant means no two visible rows share a transfer id.
    pub proof fn lemma_wf_unique_keys(&self)
        requires
            self.wf(),
        ensures
            unique_keys::<VaultTransfer>(self@),
    {
    }

    pub fn new() -> (r: Self)
        ensures
            r@ =~= Seq::<VaultTransferV>::empty(),
            r.wf(),
    {
        VaultTransferRepository { table: Table::new() }
    }

    /// Plain insert: a second row for the same transfer id is refused.
    pub fn create(&mut self, new_event: VaultTransfer) -> (r: Result<VaultTransfer, StoreError>)
        requires
            old(self).wf(),
        ensures
            final(self).wf(),
            match r {
                Ok(row) => !has_key::<VaultTransfer>(old(self)@, new_event@.transfer_id)
                    && final(self)@ == old(self)@.push(new_event@) && row@ == new_event@,
                Err(e) => has_key::<VaultTransfer>(old(self)@, new_event@.transfer_id)
                    && final(self)@ == old(self)@ && e == StoreError::DuplicateKey,
            },
    {
        self.table.insert_new(new_event)
    }

    /// Point lookup by transfer id.
    pub fn find_by_id(&self, transfer_id: &String) -> (r: Option<VaultTransfer>)
        ensures
            match r {
                Some(row) => spec_find::<VaultTransfer>(self@, transfer_id@) == Some(row@),
                None => spec_find::<VaultTransfer>(self@, transfer_id@) is None,
            },
    {
        self.table.find(transfer_id)
    }

    /// Every transfer row not yet marked fulfilled.
    pub fn find_unfulfilled(&self) -> (r: Vec<VaultTransfer>)
        ensures
            r@.map_values(|x: VaultTransfer| x@) == spec_unfulfilled_vault(self@),
    {
        let rows = self.table.rows();
        let n = rows.len();
        let mut out: Vec<VaultTransfer> = Vec::new();
        let mut i: usize = 0;
        while i < n
            invariant
                n == rows@.len(),
                rows@.map_values(|x: VaultTransfer| x@) == self@,
                i <= n,
                out@.map_values(|x: VaultTransfer| x@) == spec_unfulfilled_vault(
                    self@.take(i as int),
                ),
            decreases n - i,
        {
            let row = &rows[i];
            proof {
                assert(self@[i as int] == rows@[i as int]@);
            }
            let ghost prev = out@.map_values(|x: VaultTransfer| x@);
            if !row.fulfilled {
                out.push(row.duplicate());
            }
            proof {
                assert(self@.take(i + 1).drop_last() =~= self@.take(i as int));
                assert(self@.take(i + 1).last() == self@[i as int]);
                if !self@[i as int].fulfilled {
                    assert(out@.map_values(|x: VaultTransfer| x@) =~= prev.push(self@[i as int]));
                } else {
                    assert(out@.map_values(|x: VaultTransfer| x@) =~= prev);
                }
            }
            i = i + 1;
        }
        proof {
            assert(self@.take(n as int) =~= self@);
        }
        out
    }
}

} // verus!
