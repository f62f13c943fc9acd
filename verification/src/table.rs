//! A table that keeps records one per key, seen as a map from keys to records.

use vstd::prelude::*;

verus! {

/// A record that carries the key it is filed under.
pub trait Keyed: Sized {
    type Key;

    /// The key of this record.
    spec fn key(&self) -> Self::Key;

    /// The key of this record.
    fn get_key(&self) -> (k: Self::Key)
        ensures
            k == self.key(),
    ;

    /// Tells whether this record is filed under `key`.
    fn has_key(&self, key: &Self::Key) -> (r: bool)
        ensures
            r == (self.key() == *key),
    ;
}

/// `rows[i]` is a record filed under `key`.
spec fn filed_at<R: Keyed>(rows: Seq<R>, key: R::Key, i: int) -> bool {
    0 <= i < rows.len() && rows[i].key() == key
}

/// No two rows have the same key.
spec fn distinct_keys<R: Keyed>(rows: Seq<R>) -> bool {
    forall|i: int, j: int|
        0 <= i < j < rows.len() ==> #[trigger] rows[i].key() != #[trigger] rows[j].key()
}

/// The rows, each under its key.
spec fn filed<R: Keyed>(rows: Seq<R>) -> Map<R::Key, R> {
    Map::new(
        |k: R::Key| exists|i: int| filed_at(rows, k, i),
        |k: R::Key| rows[choose|i: int| filed_at(rows, k, i)],
    )
}

/// Each row is found under its own key.
proof fn lemma_filed_row<R: Keyed>(rows: Seq<R>, i: int)
    requires
        distinct_keys(rows),
        0 <= i < rows.len(),
    ensures
        filed(rows).contains_key(rows[i].key()),
        filed(rows)[rows[i].key()] == rows[i],
{
    let k = rows[i].key();
    assert(filed_at(rows, k, i));
    let j = choose|j: int| filed_at(rows, k, j);
    assert(filed_at(rows, k, j));
    if j < i {
        assert(rows[j].key() != rows[i].key());
    }
    if i < j {
        assert(rows[i].key() != rows[j].key());
    }
}

/// What is found under a key is a row with that key.
proof fn lemma_filed_key<R: Keyed>(rows: Seq<R>, key: R::Key)
    requires
        filed(rows).contains_key(key),
    ensures
        filed(rows)[key].key() == key,
{
    let j = choose|j: int| filed_at(rows, key, j);
    assert(filed_at(rows, key, j));
}

/// Appending a row with a new key files it and keeps the rest.
proof fn lemma_filed_push<R: Keyed>(rows: Seq<R>, row: R)
    requires
        distinct_keys(rows),
        !filed(rows).contains_key(row.key()),
    ensures
        distinct_keys(rows.push(row)),
        filed(rows.push(row)) == filed(rows).insert(row.key(), row),
{
    let after = rows.push(row);
    assert forall|i: int, j: int| 0 <= i < j < after.len() implies #[trigger] after[i].key()
        != #[trigger] after[j].key() by {
        if j == rows.len() {
            if rows[i].key() == row.key() {
                assert(filed_at(rows, row.key(), i));
            }
        } else {
            assert(rows[i].key() != rows[j].key());
        }
    }
    assert forall|k: R::Key| #[trigger]
        filed(after).contains_key(k) == filed(rows).insert(row.key(), row).contains_key(k) by {
        if filed(after).contains_key(k) {
            let i = choose|i: int| filed_at(after, k, i);
            if i < rows.len() {
                assert(filed_at(rows, k, i));
            }
        }
        if filed(rows).contains_key(k) {
            let i = choose|i: int| filed_at(rows, k, i);
            assert(filed_at(after, k, i));
        }
        if k == row.key() {
            assert(filed_at(after, k, rows.len() as int));
        }
    }
    assert forall|k: R::Key| #[trigger] filed(after).contains_key(k) implies filed(after)[k]
        == filed(rows).insert(row.key(), row)[k] by {
        let i = choose|i: int| filed_at(after, k, i);
        assert(filed_at(after, k, i));
        lemma_filed_row(after, i);
        if i < rows.len() {
            lemma_filed_row(rows, i);
        }
    }
    assert(filed(after) =~= filed(rows).insert(row.key(), row));
}

/// Replacing a row by one with the same key files the new one in its place.
proof fn lemma_filed_update<R: Keyed>(rows: Seq<R>, i: int, row: R)
    requires
        distinct_keys(rows),
        0 <= i < rows.len(),
        rows[i].key() == row.key(),
    ensures
        distinct_keys(rows.update(i, row)),
        filed(rows.update(i, row)) == filed(rows).insert(row.key(), row),
{
    let after = rows.update(i, row);
    assert forall|a: int, b: int| 0 <= a < b < after.len() implies #[trigger] after[a].key()
        != #[trigger] after[b].key() by {
        assert(rows[a].key() != rows[b].key());
    }
    assert forall|k: R::Key| #[trigger]
        filed(after).contains_key(k) == filed(rows).insert(row.key(), row).contains_key(k) by {
        if filed(after).contains_key(k) {
            let j = choose|j: int| filed_at(after, k, j);
            assert(filed_at(rows, k, j));
        }
        if filed(rows).contains_key(k) {
            let j = choose|j: int| filed_at(rows, k, j);
            assert(filed_at(after, k, j));
        }
        if k == row.key() {
            assert(filed_at(after, k, i));
        }
    }
    assert forall|k: R::Key| #[trigger] filed(after).contains_key(k) implies filed(after)[k]
        == filed(rows).insert(row.key(), row)[k] by {
        let j = choose|j: int| filed_at(after, k, j);
        assert(filed_at(after, k, j));
        lemma_filed_row(after, j);
        lemma_filed_row(rows, j);
    }
    assert(filed(after) =~= filed(rows).insert(row.key(), row));
}

/// Taking a row out leaves the others filed as they were.
proof fn lemma_filed_remove<R: Keyed>(rows: Seq<R>, i: int)
    requires
        distinct_keys(rows),
        0 <= i < rows.len(),
    ensures
        distinct_keys(rows.remove(i)),
        filed(rows.remove(i)) == filed(rows).remove(rows[i].key()),
{
    let after = rows.remove(i);
    let gone = rows[i].key();
    assert forall|a: int, b: int| 0 <= a < b < after.len() implies #[trigger] after[a].key()
        != #[trigger] after[b].key() by {
        let a0 = if a < i { a } else { a + 1 };
        let b0 = if b < i { b } else { b + 1 };
        assert(rows[a0].key() != rows[b0].key());
    }
    assert forall|k: R::Key| #[trigger]
        filed(after).contains_key(k) == filed(rows).remove(gone).contains_key(k) by {
        if filed(after).contains_key(k) {
            let j = choose|j: int| filed_at(after, k, j);
            let j0 = if j < i { j } else { j + 1 };
            assert(filed_at(rows, k, j0));
            if j0 < i {
                assert(rows[j0].key() != rows[i].key());
            } else {
                assert(rows[i].key() != rows[j0].key());
            }
        }
        if filed(rows).contains_key(k) && k != gone {
            let j = choose|j: int| filed_at(rows, k, j);
            let j1 = if j < i { j } else { j - 1 };
            assert(filed_at(after, k, j1));
        }
    }
    assert forall|k: R::Key| #[trigger] filed(after).contains_key(k) implies filed(after)[k]
        == filed(rows).remove(gone)[k] by {
        let j = choose|j: int| filed_at(after, k, j);
        assert(filed_at(after, k, j));
        let j0 = if j < i { j } else { j + 1 };
        lemma_filed_row(after, j);
        lemma_filed_row(rows, j0);
    }
    assert(filed(after) =~= filed(rows).remove(gone));
}

/// There are finitely many keys.
proof fn lemma_filed_finite<R: Keyed>(rows: Seq<R>)
    ensures
        filed(rows).dom().finite(),
    decreases rows.len(),
{
    if rows.len() == 0 {
        assert(filed(rows).dom() =~= Set::<R::Key>::empty());
    } else {
        let front = rows.drop_last();
        let last = rows.last();
        lemma_filed_finite(front);
        assert forall|k: R::Key| #[trigger]
            filed(rows).dom().contains(k) == filed(front).dom().insert(last.key()).contains(
                k,
            ) by {
            if filed(rows).contains_key(k) {
                let i = choose|i: int| filed_at(rows, k, i);
                if i < front.len() {
                    assert(filed_at(front, k, i));
                }
            }
            if filed(front).contains_key(k) {
                let i = choose|i: int| filed_at(front, k, i);
                assert(filed_at(rows, k, i));
            }
            if k == last.key() {
                assert(filed_at(rows, k, rows.len() - 1));
            }
        }
        assert(filed(rows).dom() =~= filed(front).dom().insert(last.key()));
    }
}

/// There are as many keys as rows.
proof fn lemma_filed_len<R: Keyed>(rows: Seq<R>)
    requires
        distinct_keys(rows),
    ensures
        filed(rows).dom().finite(),
        filed(rows).dom().len() == rows.len(),
    decreases rows.len(),
{
    if rows.len() == 0 {
        assert(filed(rows).dom() =~= Set::<R::Key>::empty());
    } else {
        let front = rows.drop_last();
        let last = rows.last();
        assert(distinct_keys(front)) by {
            assert forall|i: int, j: int| 0 <= i < j < front.len() implies #[trigger] front[i].key()
                != #[trigger] front[j].key() by {
                assert(rows[i].key() != rows[j].key());
            }
        }
        lemma_filed_len(front);
        if filed(front).contains_key(last.key()) {
            let i = choose|i: int| filed_at(front, last.key(), i);
            assert(filed_at(front, last.key(), i));
            assert(rows[i].key() != rows[rows.len() - 1].key());
        }
        lemma_filed_push(front, last);
        assert(front.push(last) =~= rows);
        assert(filed(rows).dom() =~= filed(front).dom().insert(last.key()));
    }
}

/// Records kept one per key.
pub struct Table<R: Keyed> {
    rows: Vec<R>,
}

impl<R: Keyed> View for Table<R> {
    type V = Map<R::Key, R>;

    /// The records, each under its key.
    closed spec fn view(&self) -> Map<R::Key, R> {
        filed(self.rows@)
    }
}

impl<R: Keyed> Table<R> {
    #[verifier::type_invariant]
    spec fn one_row_per_key(&self) -> bool {
        distinct_keys(self.rows@)
    }
}

impl<R: Keyed + Copy> Table<R> {
    /// A table without records.
    pub fn new() -> (r: Self)
        ensures
            r@ == Map::<R::Key, R>::empty(),
    {
        let r = Table { rows: Vec::new() };
        proof {
            assert(r@ =~= Map::<R::Key, R>::empty());
        }
        r
    }

    /// Every record is filed under its own key, and there are finitely many.
    pub proof fn lemma_view(&self)
        ensures
            self@.dom().finite(),
            forall|k: R::Key| #[trigger] self@.contains_key(k) ==> self@[k].key() == k,
    {
        lemma_filed_finite(self.rows@);
        assert forall|k: R::Key| #[trigger] self@.contains_key(k) implies self@[k].key() == k by {
            lemma_filed_key(self.rows@, k);
        }
    }

    /// The number of records.
    pub fn len(&self) -> (r: usize)
        ensures
            self@.dom().finite(),
            r == self@.dom().len(),
    {
        proof {
            use_type_invariant(self);
            lemma_filed_len(self.rows@);
        }
        self.rows.len()
    }

    /// Where the record under `key` stands, if there is one.
    fn find(&self, key: &R::Key) -> (r: Option<usize>)
        ensures
            match r {
                Some(i) => filed_at(self.rows@, *key, i as int),
                None => !self@.contains_key(*key),
            },
    {
        let mut i: usize = 0;
        while i < self.rows.len()
            invariant
                i <= self.rows@.len(),
                forall|j: int| 0 <= j < i ==> !filed_at(self.rows@, *key, j),
            decreases self.rows@.len() - i,
        {
            if self.rows[i].has_key(key) {
                return Some(i);
            }
            i += 1;
        }
        None
    }

    /// Hands out the rows and leaves none behind.
    fn take_rows(&mut self) -> (rows: Vec<R>)
        ensures
            rows@ == old(self).rows@,
            final(self).rows@ == Seq::<R>::empty(),
    {
        let mut rows: Vec<R> = Vec::new();
        core::mem::swap(&mut self.rows, &mut rows);
        rows
    }

    /// The record under `key`, if there is one.
    pub fn get(&self, key: &R::Key) -> (r: Option<R>)
        ensures
            r == (if self@.contains_key(*key) {
                Some(self@[*key])
            } else {
                None
            }),
    {
        proof {
            use_type_invariant(self);
        }
        match self.find(key) {
            Some(i) => {
                proof {
                    lemma_filed_row(self.rows@, i as int);
                }
                Some(self.rows[i])
            },
            None => None,
        }
    }

    /// Files `row` under its key, in place of the record that was there, if any.
    pub fn put(&mut self, row: R)
        ensures
            final(self)@ == old(self)@.insert(row.key(), row),
    {
        proof {
            use_type_invariant(&*self);
        }
        let key = row.get_key();
        match self.find(&key) {
            Some(i) => {
                proof {
                    lemma_filed_update(self.rows@, i as int, row);
                }
                let mut rows = self.take_rows();
                rows.set(i, row);
                self.rows = rows;
            },
            None => {
                proof {
                    lemma_filed_push(self.rows@, row);
                }
                let mut rows = self.take_rows();
                rows.push(row);
                self.rows = rows;
            },
        }
    }

    /// Takes out the record under `key` and hands it back, if there is one.
    pub fn remove(&mut self, key: &R::Key) -> (r: Option<R>)
        ensures
            final(self)@ == old(self)@.remove(*key),
            r == (if old(self)@.contains_key(*key) {
                Some(old(self)@[*key])
            } else {
                None
            }),
    {
        proof {
            use_type_invariant(&*self);
        }
        match self.find(key) {
            Some(i) => {
                proof {
                    lemma_filed_row(self.rows@, i as int);
                    lemma_filed_remove(self.rows@, i as int);
                }
                let mut rows = self.take_rows();
                let row = rows.remove(i);
                self.rows = rows;
                Some(row)
            },
            None => {
                proof {
                    assert(self@.remove(*key) =~= self@);
                }
                None
            },
        }
    }
}

} // verus!
