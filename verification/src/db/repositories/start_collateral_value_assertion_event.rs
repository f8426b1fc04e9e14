//! Repository for collateral-value-assertion start rows: resolve-on-conflict
//! insert keyed by the assertion id, point lookup, and the latest-by-account
//! scan ordered by event time descending.
use vstd::prelude::*;

verus! {

use crate::StoreError;
use crate::db::models::{StartCollateralValueAssertionEvent, StartCollateralValueAssertionEventV};
use crate::db::table::{Table, unique_keys, spec_create, spec_find, KeyedRecord};

/// The latest assertion row of an account: the row with the greatest event
/// time among the account's rows, the earliest stored one on a tie.
pub open spec fn spec_latest_for_account(
    s: Seq<StartCollateralValueAssertionEventV>,
    account: Seq<char>,
) -> Option<StartCollateralValueAssertionEventV>
    decreases s.len(),
{
    if s.len() == 0 {
        None
    } else {
        let prev = spec_latest_for_account(s.drop_last(), account);
        if s.last().account_id != account {
            prev
        } else {
            match prev {
                None => Some(s.last()),
                Some(p) => if s.last().timestamp > p.timestamp {
                    Some(s.last())
                } else {
                    Some(p)
                },
            }
        }
    }
}

pub struct StartCollateralValueAssertionEventRepository {
    table: Table<StartCollateralValueAssertionEvent>,
}

impl View for StartCollateralValueAssertionEventRepository {
    type V = Seq<StartCollateralValueAssertionEventV>;

    closed spec fn view(&self) -> Seq<StartCollateralValueAssertionEventV> {
        self.table@
    }
}

impl StartCollateralValueAssertionEventRepository {
    pub closed spec fn wf(&self) -> bool {
        self.table.wf()
    }

    /// The invariant means no two visible rows share a assertion id.
    pub proof fn lemma_wf_unique_keys(&self)
        requires
            self.wf(),
        ensures
            unique_keys::<StartCollateralValueAssertionEvent>(self@),
    {
    }

    pub fn new() -> (r: Self)
        ensures
            r@ =~= Seq::<StartCollateralValueAssertionEventV>::empty(),
            r.wf(),
    {
        StartCollateralValueAssertionEventRepository { table: Table::new() }
    }

    /// Idempotent insert: a replay with an already-stored assertion id
    /// stores nothing and returns the existing row.
    pub fn create(&mut self, new_event: StartCollateralValueAssertionEvent) -> (r: Result<
        StartCollateralValueAssertionEvent,
        StoreError,
    >)
        requires
            old(self).wf(),
        ensures
            final(self).wf(),
            final(self)@ == spec_create::<StartCollateralValueAssertionEvent>(
                old(self)@,
                new_event@,
            ).0,
            match r {
                Ok(row) => row@ == spec_create::<StartCollateralValueAssertionEvent>(
                    old(self)@,
                    new_event@,
                ).1,
                Err(_) => false,
            },
    {
        Ok(self.table.create(new_event))
    }

    /// Point lookup by assertion id.
    pub fn find(&self, target_cva_id: &String) -> (r: Option<StartCollateralValueAssertionEvent>)
        ensures
            match r {
                Some(row) => spec_find::<StartCollateralValueAssertionEvent>(self@, target_cva_id@)
                    == Some(row@),
                None => spec_find::<StartCollateralValueAssertionEvent>(
                    self@,
                    target_cva_id@,
                ) is None,
            },
    {
        self.table.find(target_cva_id)
    }

    /// The assertion row of the account with the greatest event time.
    pub fn find_latest_by_account_id(&self, target_account_id: &String) -> (r: Option<
        StartCollateralValueAssertionEvent,
    >)
        ensures
            match r {
                Some(row) => spec_latest_for_account(self@, target_account_id@) == Some(row@),
                None => spec_latest_for_account(self@, target_account_id@) is None,
            },
    {
        let rows = self.table.rows();
        let n = rows.len();
        let mut best: Option<StartCollateralValueAssertionEvent> = None;
        let mut i: usize = 0;
        while i < n
            invariant
                n == rows@.len(),
                rows@.map_values(|x: StartCollateralValueAssertionEvent| x@) == self@,
                i <= n,
                match best {
                    Some(b) => spec_latest_for_account(self@.take(i as int), target_account_id@)
                        == Some(b@),
                    None => spec_latest_for_account(
                        self@.take(i as int),
                        target_account_id@,
                    ) is None,
                },
            decreases n - i,
        {
            let row = &rows[i];
            proof {
                assert(self@[i as int] == rows@[i as int]@);
                assert(self@.take(i + 1).drop_last() =~= self@.take(i as int));
                assert(self@.take(i + 1).last() == self@[i as int]);
            }
            if row.account_id.eq(target_account_id) {
                best = match best {
                    None => Some(row.duplicate()),
                    Some(b) => if row.timestamp > b.timestamp {
                        Some(row.duplicate())
                    } else {
                        Some(b)
                    },
                };
            }
            i = i + 1;
        }
        proof {
            assert(self@.take(n as int) =~= self@);
        }
        best
    }
}

} // verus!
