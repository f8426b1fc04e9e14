//! Repository for account-opened rows: resolve-on-conflict insert keyed by
//! transaction hash, point lookups, and the full scan behind the accounts
//! read surface.
use vstd::prelude::*;

verus! {

use crate::StoreError;
use crate::db::models::{NewAccountEvent, NewAccountEventV};
use crate::db::table::{Table, unique_keys, spec_create, spec_find, KeyedRecord};

/// The earliest stored account row for an account id, if any.
pub open spec fn spec_first_for_account(s: Seq<NewAccountEventV>, account: Seq<char>) -> Option<
    NewAccountEventV,
>
    decreases s.len(),
{
    if s.len() == 0 {
        None
    } else if s[0].account_id == account {
        Some(s[0])
    } else {
        spec_first_for_account(s.drop_first(), account)
    }
}

proof fn lemma_first_for_account_skip(s: Seq<NewAccountEventV>, account: Seq<char>, i: int)
    requires
        0 <= i <= s.len(),
        forall|j: int| 0 <= j < i ==> s[j].account_id != account,
    ensures
        spec_first_for_account(s, account) == spec_first_for_account(s.skip(i), account),
    decreases i,
{
    if i > 0 {
        lemma_first_for_account_skip(s.drop_first(), account, i - 1);
        assert(s.drop_first().skip(i - 1) =~= s.skip(i));
    } else {
        assert(s.skip(0) =~= s);
    }
}

pub struct NewAccountEventRepository {
    table: Table<NewAccountEvent>,
}

impl View for NewAccountEventRepository {
    type V = Seq<NewAccountEventV>;

    closed spec fn view(&self) -> Seq<NewAccountEventV> {
        self.table@
    }
}

impl NewAccountEventRepository {
    pub closed spec fn wf(&self) -> bool {
        self.table.wf()
    }

    /// The invariant means no two visible rows share a transaction hash.
    pub proof fn lemma_wf_unique_keys(&self)
        requires
            self.wf(),
        ensures
            unique_keys::<NewAccountEvent>(self@),
    {
    }

    pub fn new() -> (r: Self)
        ensures
            r@ =~= Seq::<NewAccountEventV>::empty(),
            r.wf(),
    {
        NewAccountEventRepository { table: Table::new() }
    }

    /// Idempotent insert: a replay of the same transaction stores nothing
    /// and returns the existing row.
    pub fn create(&mut self, new_event: NewAccountEvent) -> (r: Result<
        NewAccountEvent,
        StoreError,
    >)
        requires
            old(self).wf(),
        ensures
            final(self).wf(),
            final(self)@ == spec_create::<NewAccountEvent>(old(self)@, new_event@).0,
            match r {
                Ok(row) => row@ == spec_create::<NewAccountEvent>(old(self)@, new_event@).1,
                Err(_) => false,
            },
    {
        Ok(self.table.create(new_event))
    }

    /// Point lookup by transaction hash.
    pub fn find(&self, tx_hash: &String) -> (r: Option<NewAccountEvent>)
        ensures
            match r {
                Some(row) => spec_find::<NewAccountEvent>(self@, tx_hash@) == Some(row@),
                None => spec_find::<NewAccountEvent>(self@, tx_hash@) is None,
            },
    {
        self.table.find(tx_hash)
    }

    /// The earliest stored account row for the given account id.
    pub fn find_by_account_id(&self, acc_id: &String) -> (r: Option<NewAccountEvent>)
        ensures
            match r {
                Some(row) => spec_first_for_account(self@, acc_id@) == Some(row@),
                None => spec_first_for_account(self@, acc_id@) is None,
            },
    {
        let rows = self.table.rows();
        let n = rows.len();
        let mut i: usize = 0;
        while i < n
            invariant
                n == rows@.len(),
                rows@.map_values(|x: NewAccountEvent| x@) == self@,
                i <= n,
                forall|j: int| 0 <= j < i ==> self@[j].account_id != acc_id@,
            decreases n - i,
        {
            let row = &rows[i];
            proof {
                assert(self@[i as int] == rows@[i as int]@);
            }
            if row.account_id.eq(acc_id) {
                proof {
                    lemma_first_for_account_skip(self@, acc_id@, i as int);
                    assert(self@.skip(i as int)[0] == self@[i as int]);
                }
                return Some(row.duplicate());
            }
            i = i + 1;
        }
        proof {
            lemma_first_for_account_skip(self@, acc_id@, n as int);
            assert(self@.skip(n as int) =~= Seq::<NewAccountEventV>::empty());
        }
        None
    }

    /// All stored account rows, in insertion order.
    pub fn find_all(&self) -> (r: Vec<NewAccountEvent>)
        ensures
            r@.map_values(|x: NewAccountEvent| x@) =~= self@,
    {
        self.table.all()
    }
}

} // verus!
