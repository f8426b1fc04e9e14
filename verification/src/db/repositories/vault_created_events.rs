//! Repository for vault-created rows: plain insert keyed by transaction
//! hash, lookup by vault address (which the collateral-transfer callback
//! resolves to a vault marker), and the full scan behind the vaults read
//! surface.
use vstd::prelude::*;

verus! {

use crate::StoreError;
use crate::db::models::{VaultCreatedEvent, VaultCreatedEventV};
use crate::db::table::{Table, unique_keys, spec_find, has_key, KeyedRecord};

/// The earliest stored vault row for a vault address, if any.
pub open spec fn spec_first_for_vault_address(
    s: Seq<VaultCreatedEventV>,
    address: Seq<char>,
) -> Option<VaultCreatedEventV>
    decreases s.len(),
{
    if s.len() == 0 {
        None
    } else if s[0].vault_address == address {
        Some(s[0])
    } else {
        spec_first_for_vault_address(s.drop_first(), address)
    }
}

proof fn lemma_first_for_vault_address_skip(s: Seq<VaultCreatedEventV>, address: Seq<char>, i: int)
    requires
        0 <= i <= s.len(),
        forall|j: int| 0 <= j < i ==> s[j].vault_address != address,
    ensures
        spec_first_for_vault_address(s, address) == spec_first_for_vault_address(
            s.skip(i),
            address,
        ),
    decreases i,
{
    if i > 0 {
        lemma_first_for_vault_address_skip(s.drop_first(), address, i - 1);
        assert(s.drop_first().skip(i - 1) =~= s.skip(i));
    } else {
        assert(s.skip(0) =~= s);
    }
}

pub struct VaultCreatedEventRepository {
    table: Table<VaultCreatedEvent>,
}

impl View for VaultCreatedEventRepository {
    type V = Seq<VaultCreatedEventV>;

    closed spec fn view(&self) -> Seq<VaultCreatedEventV> {
        self.table@
    }
}

impl VaultCreatedEventRepository {
    pub closed spec fn wf(&self) -> bool {
        self.table.wf()
    }

    /// The invariant means no two visible rows share a transaction hash.
    pub proof fn lemma_wf_unique_keys(&self)
        requires
            self.wf(),
        ensures
            unique_keys::<VaultCreatedEvent>(self@),
    {
    }

    pub fn new() -> (r: Self)
        ensures
            r@ =~= Seq::<VaultCreatedEventV>::empty(),
            r.wf(),
    {
        VaultCreatedEventRepository { table: Table::new() }
    }

    /// Plain insert: a second row for the same transaction hash is refused.
    pub fn create(&mut self, new_item: VaultCreatedEvent) -> (r: Result<
        VaultCreatedEvent,
        StoreError,
    >)
        requires
            old(self).wf(),
        ensures
            final(self).wf(),
            match r {
                Ok(row) => !has_key::<VaultCreatedEvent>(old(self)@, new_item@.transaction_hash)
                    && final(self)@ == old(self)@.push(new_item@) && row@ == new_item@,
                Err(e) => has_key::<VaultCreatedEvent>(old(self)@, new_item@.transaction_hash)
                    && final(self)@ == old(self)@ && e == StoreError::DuplicateKey,
            },
    {
        self.table.insert_new(new_item)
    }

    /// Point lookup by transaction hash.
    pub fn find(&self, tx_hash: &String) -> (r: Option<VaultCreatedEvent>)
        ensures
            match r {
                Some(row) => spec_find::<VaultCreatedEvent>(self@, tx_hash@) == Some(row@),
                None => spec_find::<VaultCreatedEvent>(self@, tx_hash@) is None,
            },
    {
        self.table.find(tx_hash)
    }

    /// The earliest stored vault row with the given vault address.
    pub fn find_by_vault_address(&self, address: &String) -> (r: Option<VaultCreatedEvent>)
        ensures
            match r {
                Some(row) => spec_first_for_vault_address(self@, address@) == Some(row@),
                None => spec_first_for_vault_address(self@, address@) is None,
            },
    {
        let rows = self.table.rows();
        let n = rows.len();
        let mut i: usize = 0;
        while i < n
            invariant
                n == rows@.len(),
                rows@.map_values(|x: VaultCreatedEvent| x@) == self@,
                i <= n,
                forall|j: int| 0 <= j < i ==> self@[j].vault_address != address@,
            decreases n - i,
        {
            let row = &rows[i];
            proof {
                assert(self@[i as int] == rows@[i as int]@);
            }
            if row.vault_address.eq(address) {
                proof {
                    lemma_first_for_vault_address_skip(self@, address@, i as int);
                    assert(self@.skip(i as int)[0] == self@[i as int]);
                }
                return Some(row.duplicate());
            }
            i = i + 1;
        }
        proof {
            lemma_first_for_vault_address_skip(self@, address@, n as int);
            assert(self@.skip(n as int) =~= Seq::<VaultCreatedEventV>::empty());
        }
        None
    }

    /// All stored vault rows, in insertion order.
    pub fn find_all(&self) -> (r: Vec<VaultCreatedEvent>)
        ensures
            r@.map_values(|x: VaultCreatedEvent| x@) =~= self@,
    {
        self.table.all()
    }
}

} // verus!
