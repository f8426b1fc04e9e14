//! The storage primitive shared by all repositories: an append-only table of
//! records with a natural key. Two conflict policies exist, matching the two
//! families of record kinds: resolve-on-conflict (`create`), which never
//! duplicates a key and returns the already-stored row on replay, and plain
//! insert (`insert_new`), which refuses a duplicate key outright.
use vstd::prelude::*;

verus! {

use crate::StoreError;

/// A record with a natural key on which conflicts are detected.
pub trait KeyedRecord: View + Sized {
    /// The natural key of a stored record.
    spec fn key_view(v: Self::V) -> Seq<char>;

    /// The natural key of this record.
    fn key(&self) -> (k: &String)
        ensures
            k@ == Self::key_view(self@),
    ;

    /// An owned copy of this record.
    fn duplicate(&self) -> (r: Self)
        ensures
            r@ == self@,
    ;
}

/// No two records share a key.
pub open spec fn unique_keys<R: KeyedRecord>(s: Seq<R::V>) -> bool {
    forall|i: int, j: int|
        0 <= i < j < s.len() ==> R::key_view(s[i]) != R::key_view(s[j])
}

/// The first record with the given key, if any.
pub open spec fn spec_find<R: KeyedRecord>(s: Seq<R::V>, k: Seq<char>) -> Option<R::V>
    decreases s.len(),
{
    if s.len() == 0 {
        None
    } else if R::key_view(s[0]) == k {
        Some(s[0])
    } else {
        spec_find::<R>(s.drop_first(), k)
    }
}

pub open spec fn has_key<R: KeyedRecord>(s: Seq<R::V>, k: Seq<char>) -> bool {
    spec_find::<R>(s, k) is Some
}

/// The resolve-on-conflict policy: the table and row that `create` yields.
/// A fresh key appends the record; a known key leaves the table unchanged
/// and yields the row already stored under that key.
pub open spec fn spec_create<R: KeyedRecord>(s: Seq<R::V>, v: R::V) -> (Seq<R::V>, R::V) {
    match spec_find::<R>(s, R::key_view(v)) {
        Some(e) => (s, e),
        None => (s.push(v), v),
    }
}

pub proof fn lemma_spec_find_skip<R: KeyedRecord>(s: Seq<R::V>, k: Seq<char>, i: int)
    requires
        0 <= i <= s.len(),
        forall|j: int| 0 <= j < i ==> R::key_view(s[j]) != k,
    ensures
        spec_find::<R>(s, k) == spec_find::<R>(s.skip(i), k),
    decreases i,
{
    if i > 0 {
        lemma_spec_find_skip::<R>(s.drop_first(), k, i - 1);
        assert(s.drop_first().skip(i - 1) =~= s.skip(i));
    } else {
        assert(s.skip(0) =~= s);
    }
}

pub proof fn lemma_spec_find_push_fresh<R: KeyedRecord>(s: Seq<R::V>, v: R::V)
    requires
        spec_find::<R>(s, R::key_view(v)) is None,
    ensures
        spec_find::<R>(s.push(v), R::key_view(v)) == Some(v),
    decreases s.len(),
{
    let k = R::key_view(v);
    if s.len() == 0 {
        assert(s.push(v)[0] == v);
    } else {
        assert(s.push(v)[0] == s[0]);
        lemma_spec_find_push_fresh::<R>(s.drop_first(), v);
        assert(s.push(v).drop_first() =~= s.drop_first().push(v));
    }
}

pub proof fn lemma_spec_find_is_contained<R: KeyedRecord>(s: Seq<R::V>, k: Seq<char>)
    ensures
        match spec_find::<R>(s, k) {
            Some(e) => exists|i: int|
                0 <= i < s.len() && s[i] == e && R::key_view(e) == k,
            None => forall|i: int| 0 <= i < s.len() ==> R::key_view(s[i]) != k,
        },
    decreases s.len(),
{
    if s.len() > 0 {
        lemma_spec_find_is_contained::<R>(s.drop_first(), k);
        match spec_find::<R>(s, k) {
            Some(e) => {
                if R::key_view(s[0]) == k {
                    assert(s[0] == e);
                } else {
                    let i = choose|i: int|
                        0 <= i < s.drop_first().len() && s.drop_first()[i] == e && R::key_view(e)
                            == k;
                    assert(s[i + 1] == e);
                }
            },
            None => {
                assert forall|i: int| 0 <= i < s.len() implies R::key_view(s[i]) != k by {
                    if i > 0 {
                        assert(s.drop_first()[i - 1] == s[i]);
                    }
                }
            },
        }
    }
}

/// The resolve-on-conflict policy keeps keys unique.
pub proof fn lemma_spec_create_preserves_unique<R: KeyedRecord>(s: Seq<R::V>, v: R::V)
    requires
        unique_keys::<R>(s),
    ensures
        unique_keys::<R>(spec_create::<R>(s, v).0),
{
    let k = R::key_view(v);
    if spec_find::<R>(s, k) is None {
        lemma_spec_find_is_contained::<R>(s, k);
        let s1 = s.push(v);
        assert forall|i: int, j: int| 0 <= i < j < s1.len() implies R::key_view(s1[i])
            != R::key_view(s1[j]) by {
            if j == s.len() {
                assert(s1[i] == s[i]);
            } else {
                assert(s1[i] == s[i] && s1[j] == s[j]);
            }
        }
    }
}

/// Replaying a record whose natural key was already resolved leaves the
/// table unchanged and yields the row stored by the first call: `create`
/// is idempotent under at-least-once delivery.
pub proof fn lemma_create_idempotent<R: KeyedRecord>(s: Seq<R::V>, v: R::V, w: R::V)
    requires
        R::key_view(w) == R::key_view(v),
    ensures
        ({
            let (s1, r1) = spec_create::<R>(s, v);
            let (s2, r2) = spec_create::<R>(s1, w);
            s2 == s1 && r2 == r1 && spec_find::<R>(s1, R::key_view(v)) == Some(r1)
        }),
{
    let k = R::key_view(v);
    match spec_find::<R>(s, k) {
        Some(e) => {},
        None => {
            lemma_spec_find_push_fresh::<R>(s, v);
        },
    }
}

/// An append-only table of keyed records.
pub struct Table<R: KeyedRecord> {
    rows: Vec<R>,
}

impl<R: KeyedRecord> View for Table<R> {
    type V = Seq<R::V>;

    closed spec fn view(&self) -> Seq<R::V> {
        self.rows@.map_values(|r: R| r@)
    }
}

impl<R: KeyedRecord> Table<R> {
    /// The table invariant: natural keys are unique.
    pub open spec fn wf(&self) -> bool {
        unique_keys::<R>(self@)
    }

    pub fn new() -> (t: Self)
        ensures
            t@ =~= Seq::<R::V>::empty(),
            t.wf(),
    {
        Table { rows: Vec::new() }
    }

    /// The first stored row with the given key.
    pub fn find(&self, key: &String) -> (r: Option<R>)
        ensures
            match r {
                Some(row) => spec_find::<R>(self@, key@) == Some(row@),
                None => spec_find::<R>(self@, key@) is None,
            },
    {
        let n = self.rows.len();
        let mut i: usize = 0;
        while i < n
            invariant
                n == self.rows@.len(),
                i <= n,
                forall|j: int| 0 <= j < i ==> R::key_view(self@[j]) != key@,
            decreases n - i,
        {
            let row = &self.rows[i];
            proof {
                assert(self@[i as int] == self.rows@[i as int]@);
            }
            if row.key().eq(key) {
                proof {
                    lemma_spec_find_skip::<R>(self@, key@, i as int);
                    assert(self@.skip(i as int)[0] == self@[i as int]);
                    assert(spec_find::<R>(self@.skip(i as int), key@) == Some(self@[i as int]));
                }
                return Some(row.duplicate());
            }
            i = i + 1;
        }
        proof {
            lemma_spec_find_skip::<R>(self@, key@, n as int);
            assert(self@.skip(n as int) =~= Seq::<R::V>::empty());
        }
        None
    }

    /// Resolve-on-conflict insert: appends a record under a fresh key, and
    /// on a key conflict stores nothing and returns the existing row, so a
    /// replay of the same transaction never creates a duplicate.
    pub fn create(&mut self, rec: R) -> (r: R)
        requires
            old(self).wf(),
        ensures
            final(self).wf(),
            final(self)@ == spec_create::<R>(old(self)@, rec@).0,
            r@ == spec_create::<R>(old(self)@, rec@).1,
    {
        proof {
            lemma_spec_create_preserves_unique::<R>(self@, rec@);
        }
        match self.find(rec.key()) {
            Some(existing) => existing,
            None => {
                let ghost prior = self@;
                let copy = rec.duplicate();
                self.rows.push(rec);
                proof {
                    assert(self@ =~= prior.push(copy@));
                }
                copy
            },
        }
    }

    /// Plain insert for kinds that allow several rows per natural event but
    /// carry a unique key: a duplicate key is a constraint violation.
    pub fn insert_new(&mut self, rec: R) -> (r: Result<R, StoreError>)
        requires
            old(self).wf(),
        ensures
            final(self).wf(),
            match r {
                Ok(row) => !has_key::<R>(old(self)@, R::key_view(rec@)) && final(self)@ == old(
                    self,
                )@.push(rec@) && row@ == rec@,
                Err(e) => has_key::<R>(old(self)@, R::key_view(rec@)) && final(self)@ == old(
                    self,
                )@ && e == StoreError::DuplicateKey,
            },
    {
        match self.find(rec.key()) {
            Some(_) => Err(StoreError::DuplicateKey),
            None => {
                proof {
                    lemma_spec_create_preserves_unique::<R>(self@, rec@);
                }
                let ghost prior = self@;
                let copy = rec.duplicate();
                self.rows.push(rec);
                proof {
                    assert(self@ =~= prior.push(copy@));
                }
                Ok(copy)
            },
        }
    }

    /// All stored rows, in insertion order.
    pub fn all(&self) -> (r: Vec<R>)
        ensures
            r@.map_values(|x: R| x@) =~= self@,
    {
        let n = self.rows.len();
        let mut out: Vec<R> = Vec::new();
        let mut i: usize = 0;
        while i < n
            invariant
                n == self.rows@.len(),
                i <= n,
                out@.len() == i,
                forall|j: int| 0 <= j < i ==> out@[j]@ == self@[j],
            decreases n - i,
        {
            out.push(self.rows[i].duplicate());
            proof {
                assert(out@[i as int]@ == self@[i as int]);
            }
            i = i + 1;
        }
        proof {
            assert(out@.map_values(|x: R| x@) =~= self@);
        }
        out
    }

    /// A borrow of the stored rows, for kind-specific scans.
    pub fn rows(&self) -> (r: &Vec<R>)
        ensures
            r@.map_values(|x: R| x@) == self@,
    {
        &self.rows
    }
}

} // verus!
