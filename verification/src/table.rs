//! A table held in memory. It answers the statements that the mappers issue,
//! and so says what any storage behind them has to answer.

use crate::error::MapperError;
use crate::query::{
    answer, condition_views, has_key, key_index, keys_ascend, lemma_key_index, lemma_matching_step,
    lookup, matching, meets, newer_or_equal, newest_first, place_of, with_replaced, without,
    Condition, Select,
};
use crate::record::Record;
use crate::time::Timestamp;
use vstd::prelude::*;

verus! {

/// The rows of one resource, in the order in which they came, and the last
/// identifier that was handed out. Identifiers are never handed out twice,
/// also not after the row that had one is gone.
pub struct Table<R: Record> {
    rows: Vec<R>,
    last_id: i32,
}

/// Whether `rows` and `last_id` can be the state of a table: the identifiers
/// are positive, none lies past the last one handed out, and they grow from
/// each row to the next.
pub open spec fn is_table_state<R: Record>(rows: Seq<R>, last_id: int) -> bool {
    &&& 0 <= last_id <= i32::MAX
    &&& forall|i: int| 0 <= i < rows.len() ==> 0 < (#[trigger] rows[i]).key() <= last_id
    &&& keys_ascend(rows)
}

impl<R: Record> Table<R> {
    /// What holds of every table at all times: its rows and its last
    /// identifier are the state of a table.
    #[verifier::type_invariant]
    pub open spec fn well_formed(self) -> bool {
        is_table_state(self.rows(), self.last_id())
    }

    /// The rows that the table holds.
    pub closed spec fn rows(&self) -> Seq<R> {
        self.rows@
    }

    /// The last identifier that the table handed out; 0 before the first.
    pub closed spec fn last_id(&self) -> int {
        self.last_id as int
    }

    /// An empty table.
    pub fn new() -> (r: Self)
        ensures
            r.rows() == Seq::<R>::empty(),
            r.last_id() == 0,
    {
        Table { rows: Vec::new(), last_id: 0 }
    }

    /// How many rows the table holds.
    pub fn len(&self) -> (r: usize)
        ensures
            r == self.rows().len(),
            is_table_state(self.rows(), self.last_id()),
    {
        proof {
            use_type_invariant(self);
        }
        self.rows.len()
    }

    /// The identifier that the next new row gets, if one is left.
    pub fn next_id(&self) -> (r: Option<i32>)
        ensures
            r == if self.last_id() < i32::MAX {
                Some((self.last_id() + 1) as i32)
            } else {
                None
            },
            is_table_state(self.rows(), self.last_id()),
    {
        proof {
            use_type_invariant(self);
        }
        if self.last_id < i32::MAX {
            Some(self.last_id + 1)
        } else {
            None
        }
    }

    /// How many rows meet `conditions`.
    pub fn count(&self, conditions: &Vec<Condition<R::Column>>) -> (r: u64)
        ensures
            r == matching(self.rows(), condition_views(conditions@)).len(),
            is_table_state(self.rows(), self.last_id()),
    {
        proof {
            use_type_invariant(self);
        }
        let ghost wanted = condition_views(conditions@);
        let mut n: u64 = 0;
        let mut i: usize = 0;
        while i < self.rows.len()
            invariant
                i <= self.rows@.len(),
                n <= i,
                n == matching(self.rows@.take(i as int), wanted).len(),
                wanted == condition_views(conditions@),
            decreases self.rows@.len() - i,
        {
            proof {
                lemma_matching_step(self.rows@, wanted, i as int);
            }
            if meets(&self.rows[i], conditions) {
                n += 1;
            }
            i += 1;
        }
        assert(self.rows@.take(i as int) =~= self.rows@);
        n
    }

    /// The rows that `select` asks for.
    pub fn select(&self, select: &Select<R::Column>) -> (r: Vec<R>)
        ensures
            r@ == answer(self.rows(), select@),
    {
        let ghost wanted = condition_views(select.conditions@);
        let mut sorted: Vec<R> = Vec::new();
        let mut i: usize = 0;
        while i < self.rows.len()
            invariant
                i <= self.rows@.len(),
                sorted@ == newest_first(matching(self.rows@.take(i as int), wanted)),
                wanted == condition_views(select.conditions@),
            decreases self.rows@.len() - i,
        {
            proof {
                lemma_matching_step(self.rows@, wanted, i as int);
            }
            let row = &self.rows[i];
            if meets(row, &select.conditions) {
                let at = place(&sorted, row);
                let ghost before = matching(self.rows@.take(i as int), wanted);
                assert(before.push(*row).drop_last() =~= before);
                sorted.insert(at, row.duplicate());
            }
            i += 1;
        }
        assert(self.rows@.take(i as int) =~= self.rows@);
        let len = sorted.len();
        let from: usize = if select.offset < len as u64 {
            select.offset as usize
        } else {
            len
        };
        let to: usize = if select.limit < (len - from) as u64 {
            from + select.limit as usize
        } else {
            len
        };
        let mut page: Vec<R> = Vec::new();
        let mut k: usize = from;
        while k < to
            invariant
                from <= k <= to <= sorted@.len(),
                page@ == sorted@.subrange(from as int, k as int),
            decreases to - k,
        {
            page.push(sorted[k].duplicate());
            assert(page@ =~= sorted@.subrange(from as int, k + 1));
            k += 1;
        }
        page
    }

    /// Every row, in the order of the identifiers.
    pub fn all(&self) -> (r: Vec<R>)
        ensures
            r@ == self.rows(),
            keys_ascend(r@),
            is_table_state(self.rows(), self.last_id()),
    {
        proof {
            use_type_invariant(self);
        }
        let mut out: Vec<R> = Vec::new();
        let mut i: usize = 0;
        while i < self.rows.len()
            invariant
                i <= self.rows@.len(),
                out@ == self.rows@.take(i as int),
            decreases self.rows@.len() - i,
        {
            out.push(self.rows[i].duplicate());
            assert(out@ =~= self.rows@.take(i + 1));
            i += 1;
        }
        assert(self.rows@.take(i as int) =~= self.rows@);
        out
    }

    /// Takes the rows out and leaves the table empty.
    fn take_rows(&mut self) -> (r: Vec<R>)
        ensures
            r@ == old(self).rows@,
            final(self).rows@ == Seq::<R>::empty(),
            final(self).last_id == old(self).last_id,
    {
        proof {
            use_type_invariant(&*self);
        }
        let mut rows: Vec<R> = Vec::new();
        core::mem::swap(&mut self.rows, &mut rows);
        rows
    }

    /// Puts `rows` in the place of the rows of the table.
    fn put_rows(&mut self, rows: Vec<R>)
        requires
            is_table_state(rows@, old(self).last_id as int),
        ensures
            final(self).rows@ == rows@,
            final(self).last_id == old(self).last_id,
    {
        let mut rows = rows;
        core::mem::swap(&mut self.rows, &mut rows);
    }

    fn position(&self, id: i32) -> (r: Option<usize>)
        ensures
            match r {
                Some(i) => i < self.rows@.len() && has_key(self.rows@, id as int) && i == key_index(
                    self.rows@,
                    id as int,
                ),
                None => !has_key(self.rows@, id as int),
            },
    {
        proof {
            use_type_invariant(self);
        }
        let mut i: usize = 0;
        while i < self.rows.len()
            invariant
                i <= self.rows@.len(),
                forall|k: int| 0 <= k < i ==> (#[trigger] self.rows@[k]).key() != id,
                keys_ascend(self.rows@),
            decreases self.rows@.len() - i,
        {
            if self.rows[i].record_id() == id {
                proof {
                    lemma_key_index(self.rows@, id as int, i as int);
                }
                return Some(i);
            }
            i += 1;
        }
        None
    }

    /// The row that carries the identifier `id`, if there is one.
    pub fn find(&self, id: i32) -> (r: Option<R>)
        ensures
            r == lookup(self.rows(), id as int),
            is_table_state(self.rows(), self.last_id()),
    {
        proof {
            use_type_invariant(self);
        }
        match self.position(id) {
            Some(i) => Some(self.rows[i].duplicate()),
            None => None,
        }
    }

    /// Takes `row` in as the newest row. Its identifier has to lie past the
    /// last one handed out; a row that brings an older one is refused.
    pub fn insert(&mut self, row: R) -> (r: Result<(), MapperError>)
        ensures
            old(self).last_id() < row.key() ==> r is Ok && final(self).rows() == old(
                self,
            ).rows().push(row) && final(self).last_id() == row.key(),
            row.key() <= old(self).last_id() ==> r == Err::<(), MapperError>(
                MapperError::ConstraintViolation,
            ) && final(self).rows() == old(self).rows() && final(self).last_id() == old(
                self,
            ).last_id(),
            is_table_state(final(self).rows(), final(self).last_id()),
    {
        proof {
            use_type_invariant(&*self);
        }
        let id = row.record_id();
        if id <= self.last_id {
            return Err(MapperError::ConstraintViolation);
        }
        let mut rows = self.take_rows();
        rows.push(row);
        self.last_id = id;
        self.put_rows(rows);
        Ok(())
    }

    /// Puts `row` in the place of the row that carries its identifier, and
    /// hands back the row that stood there. Without such a row nothing
    /// changes.
    pub fn replace(&mut self, row: R) -> (r: Option<R>)
        ensures
            r == lookup(old(self).rows(), row.key()),
            final(self).rows() == with_replaced(old(self).rows(), row),
            final(self).last_id() == old(self).last_id(),
            is_table_state(final(self).rows(), final(self).last_id()),
    {
        proof {
            use_type_invariant(&*self);
        }
        match self.position(row.record_id()) {
            Some(i) => {
                let previous = self.rows[i].duplicate();
                let mut rows = self.take_rows();
                rows.set(i, row);
                self.put_rows(rows);
                Some(previous)
            },
            None => None,
        }
    }

    /// Takes out the row that carries the identifier `id`, and hands it back.
    /// Without such a row nothing changes.
    pub fn remove(&mut self, id: i32) -> (r: Option<R>)
        ensures
            r == lookup(old(self).rows(), id as int),
            final(self).rows() == without(old(self).rows(), id as int),
            final(self).last_id() == old(self).last_id(),
            is_table_state(final(self).rows(), final(self).last_id()),
    {
        proof {
            use_type_invariant(&*self);
        }
        match self.position(id) {
            Some(i) => {
                let mut rows = self.take_rows();
                let row = rows.remove(i);
                self.put_rows(rows);
                Some(row)
            },
            None => None,
        }
    }
}

/// Whether a row touched at `a` may stand before a row touched at `b`.
fn may_precede(a: Option<Timestamp>, b: Option<Timestamp>) -> (r: bool)
    ensures
        r == newer_or_equal(a, b),
{
    match (a, b) {
        (None, _) => true,
        (Some(_), None) => false,
        (Some(x), Some(y)) => x.is_at_or_after(&y),
    }
}

/// Where `row` goes into `sorted`.
fn place<R: Record>(sorted: &Vec<R>, row: &R) -> (r: usize)
    ensures
        r == place_of(sorted@, *row),
        r <= sorted@.len(),
{
    let mut at: usize = sorted.len();
    assert(sorted@.take(at as int) =~= sorted@);
    while at > 0
        invariant
            at <= sorted@.len(),
            place_of(sorted@, *row) == place_of(sorted@.take(at as int), *row),
        decreases at,
    {
        let ghost head = sorted@.take(at as int);
        assert(head.last() == sorted@[at - 1]);
        if may_precede(sorted[at - 1].last_touched(), row.last_touched()) {
            return at;
        }
        assert(head.drop_last() =~= sorted@.take(at - 1));
        at -= 1;
    }
    at
}

} // verus!
