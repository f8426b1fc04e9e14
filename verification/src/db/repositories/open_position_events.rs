//! Repository for position-opened rows: plain insert keyed by transaction
//! hash, and the open-positions projection. "Open" is never stored: a
//! position is open exactly when no close row shares its position id, an
//! anti-join recomputed on every query.
use vstd::prelude::*;

verus! {

use crate::StoreError;
use crate::db::models::{ClosePositionEventV, OpenPositionEvent, OpenPositionEventV};
use crate::db::repositories::close_position_events::{ClosePositionEventRepository, has_close};
use crate::db::table::{Table, unique_keys, spec_find, has_key, KeyedRecord};

/// An opened row counts as an open position of the account exactly when it
/// belongs to the account and no close row shares its position id.
pub open spec fn open_for_account(
    o: OpenPositionEventV,
    closes: Seq<ClosePositionEventV>,
    account: Seq<char>,
) -> bool {
    o.account_id == account && !has_close(closes, o.position_id)
}

/// The open positions of an account: the opened rows, in insertion order,
/// that lack a matching close row.
pub open spec fn spec_open_positions_for_account(
    opens: Seq<OpenPositionEventV>,
    closes: Seq<ClosePositionEventV>,
    account: Seq<char>,
) -> Seq<OpenPositionEventV>
    decreases opens.len(),
{
    if opens.len() == 0 {
        Seq::empty()
    } else {
        let rest = spec_open_positions_for_account(opens.drop_last(), closes, account);
        if open_for_account(opens.last(), closes, account) {
            rest.push(opens.last())
        } else {
            rest
        }
    }
}

/// The open-positions projection returns all and only the opened rows of
/// the account that lack a close row with the same position id.
pub proof fn lemma_open_positions_exact(
    opens: Seq<OpenPositionEventV>,
    closes: Seq<ClosePositionEventV>,
    account: Seq<char>,
)
    ensures
        forall|i: int|
            0 <= i < spec_open_positions_for_account(opens, closes, account).len() ==> opens.contains(
                #[trigger] spec_open_positions_for_account(opens, closes, account)[i],
            ) && open_for_account(
                spec_open_positions_for_account(opens, closes, account)[i],
                closes,
                account,
            ),
        forall|j: int|
            0 <= j < opens.len() && #[trigger] open_for_account(opens[j], closes, account)
                ==> spec_open_positions_for_account(opens, closes, account).contains(opens[j]),
    decreases opens.len(),
{
    let out = spec_open_positions_for_account(opens, closes, account);
    if opens.len() > 0 {
        let prefix = opens.drop_last();
        lemma_open_positions_exact(prefix, closes, account);
        let sub = spec_open_positions_for_account(prefix, closes, account);
        assert forall|i: int| 0 <= i < out.len() implies opens.contains(out[i])
            && open_for_account(out[i], closes, account) by {
            if i < sub.len() {
                assert(sub[i] == out[i]);
                assert(prefix.contains(sub[i]));
                let w = choose|w: int| 0 <= w < prefix.len() && prefix[w] == sub[i];
                assert(opens[w] == sub[i]);
            } else {
                assert(out[i] == opens.last());
                assert(opens[opens.len() - 1] == opens.last());
            }
        }
        assert forall|j: int|
            0 <= j < opens.len() && open_for_account(opens[j], closes, account) implies out.contains(
            opens[j],
        ) by {
            if j == opens.len() - 1 {
                assert(out[out.len() - 1] == opens[j]);
            } else {
                assert(prefix[j] == opens[j]);
                assert(sub.contains(opens[j]));
                let w = choose|w: int| 0 <= w < sub.len() && sub[w] == opens[j];
                assert(out[w] == opens[j]);
            }
        }
    }
}

pub struct OpenPositionEventRepository {
    table: Table<OpenPositionEvent>,
}

impl View for OpenPositionEventRepository {
    type V = Seq<OpenPositionEventV>;

    closed spec fn view(&self) -> Seq<OpenPositionEventV> {
        self.table@
    }
}

impl OpenPositionEventRepository {
    pub closed spec fn wf(&self) -> bool {
        self.table.wf()
    }

    /// The invariant means no two visible rows share a transaction hash.
    pub proof fn lemma_wf_unique_keys(&self)
        requires
            self.wf(),
        ensures
            unique_keys::<OpenPositionEvent>(self@),
    {
    }

    pub fn new() -> (r: Self)
        ensures
            r@ =~= Seq::<OpenPositionEventV>::empty(),
            r.wf(),
    {
        OpenPositionEventRepository { table: Table::new() }
    }

    /// All stored opened rows, in insertion order.
    pub fn get_all(&self) -> (r: Vec<OpenPositionEvent>)
        ensures
            r@.map_values(|x: OpenPositionEvent| x@) =~= self@,
    {
        self.table.all()
    }

    /// Plain insert: a second row for the same transaction hash is refused.
    pub fn create(&mut self, new_item: OpenPositionEvent) -> (r: Result<
        OpenPositionEvent,
        StoreError,
    >)
        requires
            old(self).wf(),
        ensures
            final(self).wf(),
            match r {
                Ok(row) => !has_key::<OpenPositionEvent>(old(self)@, new_item@.transaction_hash)
                    && final(self)@ == old(self)@.push(new_item@) && row@ == new_item@,
                Err(e) => has_key::<OpenPositionEvent>(old(self)@, new_item@.transaction_hash)
                    && final(self)@ == old(self)@ && e == StoreError::DuplicateKey,
            },
    {
        self.table.insert_new(new_item)
    }

    /// Point lookup by transaction hash.
    pub fn find(&self, id: String) -> (r: Option<OpenPositionEvent>)
        ensures
            match r {
                Some(row) => spec_find::<OpenPositionEvent>(self@, id@) == Some(row@),
                None => spec_find::<OpenPositionEvent>(self@, id@) is None,
            },
    {
        self.table.find(&id)
    }

    /// The open positions of an account: every opened row of the account for
    /// which no close row exists with the same position id.
    pub fn get_open_positions_for_account(
        &self,
        target_account_id: String,
        closes: &ClosePositionEventRepository,
    ) -> (r: Vec<OpenPositionEvent>)
        ensures
            r@.map_values(|x: OpenPositionEvent| x@) == spec_open_positions_for_account(
                self@,
                closes@,
                target_account_id@,
            ),
    {
        let rows = self.table.rows();
        let n = rows.len();
        let mut out: Vec<OpenPositionEvent> = Vec::new();
        let mut i: usize = 0;
        while i < n
            invariant
                n == rows@.len(),
                rows@.map_values(|x: OpenPositionEvent| x@) == self@,
                i <= n,
                out@.map_values(|x: OpenPositionEvent| x@) == spec_open_positions_for_account(
                    self@.take(i as int),
                    closes@,
                    target_account_id@,
                ),
            decreases n - i,
        {
            let row = &rows[i];
            proof {
                assert(self@[i as int] == rows@[i as int]@);
            }
            let ghost prev = out@.map_values(|x: OpenPositionEvent| x@);
            if row.account_id.eq(&target_account_id) && !closes.has_position(&row.position_id) {
                out.push(row.duplicate());
            }
            proof {
                assert(self@.take(i + 1).drop_last() =~= self@.take(i as int));
                assert(self@.take(i + 1).last() == self@[i as int]);
                if open_for_account(self@[i as int], closes@, target_account_id@) {
                    assert(out@.map_values(|x: OpenPositionEvent| x@) =~= prev.push(
                        self@[i as int],
                    ));
                } else {
                    assert(out@.map_values(|x: OpenPositionEvent| x@) =~= prev);
                }
            }
            i = i + 1;
        }
        proof {
            assert(self@.take(n as int) =~= self@);
        }
        out
    }
}

} // verus!
