//! The six operations that every resource offers, stated once for all of
//! them.

use crate::error::MapperError;
use crate::pagination::{
    compute_page, lemma_page_bounds, page_descriptor, page_error, page_number, Pagination,
    PaginationParam,
};
use crate::query::{
    answer, condition_views, has_key, key_index, lemma_key_index, lemma_narrower_finds_fewer,
    lemma_newest_first, lemma_satisfies_both, lookup, matching, satisfies, with_replaced, without,
    Condition, ConditionView, Select, SelectView,
};
use crate::record::Record;
use crate::request::RequestParam;
use crate::response::Data;
use crate::table::{is_table_state, Table};
use crate::time::{get_e8_time, Timestamp};
use vstd::prelude::*;

verus! {

/// The position of the first row of the page that holds `offset`.
pub open spec fn page_start(limit: int, offset: int) -> int {
    (page_number(limit, offset) - 1) * limit
}

/// The statement that asks for the page of `limit` rows that holds `offset`,
/// among the rows that meet `conditions`.
pub open spec fn page_select<C>(
    conditions: Seq<ConditionView<C>>,
    limit: int,
    offset: int,
) -> SelectView<C> {
    SelectView { conditions, limit, offset: page_start(limit, offset) }
}

/// Whether `r` is what a listing owes: for a request that describes no page
/// the error that says why, else the page of the rows of `rows` that meet
/// `conditions`, with the descriptor that counts those rows alone.
pub open spec fn is_listing<R: Record>(
    r: Result<Data<Vec<R>>, MapperError>,
    rows: Seq<R>,
    conditions: Seq<ConditionView<R::Column>>,
    pagination: PaginationParam,
) -> bool {
    let limit = pagination.limit_or_default();
    let offset = pagination.offset_or_default();
    match page_error(limit, offset) {
        Some(e) => r == Err::<Data<Vec<R>>, MapperError>(e),
        None => r is Ok && r->Ok_0.data@ == answer(rows, page_select(conditions, limit, offset))
            && r->Ok_0.pagination@ == page_descriptor(
            limit,
            offset,
            matching(rows, conditions).len() as int,
        ),
    }
}

/// The six operations of a resource over the table that holds its rows.
///
/// A resource says how a row is made from what a creation brings, how a patch
/// changes a row, and which conditions its filter amounts to. The operations
/// follow from these.
pub trait MapperCRUD: Sized {
    /// A row of the resource.
    type Item: Record;

    /// What a creation brings: a row without its identifier.
    type PostItem;

    /// What an update brings: every field that may change.
    type PatchItem;

    /// The filter of the resource: each field that is there narrows the
    /// search.
    type Filter;

    /// Whether `item` is the row that `post` makes under the identifier `id`.
    spec fn is_created(item: Self::Item, post: Self::PostItem, id: int) -> bool;

    /// Whether `item` is `previous` after `patch` was applied at the time
    /// `now`.
    spec fn is_revised(
        item: Self::Item,
        previous: Self::Item,
        patch: Self::PatchItem,
        now: Timestamp,
    ) -> bool;

    /// The conditions that `filter` amounts to, in the order of its fields.
    spec fn filter_conditions(filter: Self::Filter) -> Seq<
        ConditionView<<Self::Item as Record>::Column>,
    >;

    /// The row that `post` makes under the identifier `id`.
    fn create(post: &Self::PostItem, id: i32) -> (r: Self::Item)
        ensures
            Self::is_created(r, *post, id as int),
            r.key() == id,
    ;

    /// `previous` after `patch` was applied at the time `now`: the row keeps
    /// its identifier and says that it was touched at `now`.
    fn revise(previous: &Self::Item, patch: &Self::PatchItem, now: Timestamp) -> (r: Self::Item)
        ensures
            Self::is_revised(r, *previous, *patch, now),
            r.key() == previous.key(),
            r.touched() == Some(now),
    ;

    /// The conditions that `filter` amounts to.
    fn conditions(filter: &Self::Filter) -> (r: Vec<Condition<<Self::Item as Record>::Column>>)
        ensures
            condition_views(r@) == Self::filter_conditions(*filter),
    ;

    /// One page of all rows, the most recently touched first. The filter of
    /// the request is not looked at.
    fn get_all(
        conn: &mut Table<Self::Item>,
        param: &RequestParam<PaginationParam, Self::Filter>,
    ) -> (r: Result<Data<Vec<Self::Item>>, MapperError>)
        ensures
            final(conn).rows() == old(conn).rows(),
            final(conn).last_id() == old(conn).last_id(),
            is_table_state(final(conn).rows(), final(conn).last_id()),
            is_listing(r, old(conn).rows(), Seq::empty(), param.pagination),
    {
        let conditions: Vec<Condition<<Self::Item as Record>::Column>> = Vec::new();
        assert(condition_views(conditions@) =~= Seq::empty());
        list_page(conn, conditions, &param.pagination)
    }

    /// One page of the rows that meet the filter of the request, the most
    /// recently touched first. The descriptor counts the rows that meet the
    /// filter, not the whole table. Without a filter this is `get_all`.
    fn filter(
        conn: &mut Table<Self::Item>,
        param: &RequestParam<PaginationParam, Self::Filter>,
    ) -> (r: Result<Data<Vec<Self::Item>>, MapperError>)
        ensures
            final(conn).rows() == old(conn).rows(),
            final(conn).last_id() == old(conn).last_id(),
            is_table_state(final(conn).rows(), final(conn).last_id()),
            is_listing(
                r,
                old(conn).rows(),
                match param.filter {
                    Some(filter) => Self::filter_conditions(filter),
                    None => Seq::empty(),
                },
                param.pagination,
            ),
    {
        let conditions = match &param.filter {
            Some(filter) => Self::conditions(filter),
            None => {
                let none: Vec<Condition<<Self::Item as Record>::Column>> = Vec::new();
                assert(condition_views(none@) =~= Seq::empty());
                none
            },
        };
        list_page(conn, conditions, &param.pagination)
    }

    /// The row that carries the identifier `pid`.
    fn get_by_id(conn: &mut Table<Self::Item>, pid: i32) -> (r: Result<Self::Item, MapperError>)
        ensures
            final(conn).rows() == old(conn).rows(),
            final(conn).last_id() == old(conn).last_id(),
            is_table_state(final(conn).rows(), final(conn).last_id()),
            r == found(lookup(old(conn).rows(), pid as int)),
    {
        match conn.find(pid) {
            Some(row) => Ok(row),
            None => Err(MapperError::NotFound),
        }
    }

    /// Stores the row that `obj` makes, under the next identifier, and hands
    /// the stored row back. Where no identifier is left the table refuses the
    /// row and stays as it was.
    fn add_single(conn: &mut Table<Self::Item>, obj: &Self::PostItem) -> (r: Result<
        Self::Item,
        MapperError,
    >)
        ensures
            old(conn).last_id() < i32::MAX ==> r is Ok && Self::is_created(
                r->Ok_0,
                *obj,
                old(conn).last_id() + 1,
            ) && r->Ok_0.key() == old(conn).last_id() + 1 && final(conn).rows() == old(
                conn,
            ).rows().push(r->Ok_0) && final(conn).last_id() == old(conn).last_id() + 1,
            old(conn).last_id() >= i32::MAX ==> r == Err::<Self::Item, MapperError>(
                MapperError::ConstraintViolation,
            ) && final(conn).rows() == old(conn).rows() && final(conn).last_id() == old(
                conn,
            ).last_id(),
            is_table_state(final(conn).rows(), final(conn).last_id()),
    {
        match conn.next_id() {
            None => Err(MapperError::ConstraintViolation),
            Some(id) => {
                let row = Self::create(obj, id);
                let stored = row.duplicate();
                match conn.insert(row) {
                    Ok(()) => Ok(stored),
                    Err(e) => Err(e),
                }
            },
        }
    }

    /// Takes out the row that carries the identifier `pid` and hands back
    /// what it last held.
    fn delete_by_id(conn: &mut Table<Self::Item>, pid: i32) -> (r: Result<
        Self::Item,
        MapperError,
    >)
        ensures
            r == found(lookup(old(conn).rows(), pid as int)),
            final(conn).rows() == without(old(conn).rows(), pid as int),
            final(conn).last_id() == old(conn).last_id(),
            is_table_state(final(conn).rows(), final(conn).last_id()),
    {
        match conn.remove(pid) {
            Some(row) => Ok(row),
            None => Err(MapperError::NotFound),
        }
    }

    /// Applies `obj` to the row that carries the identifier `pid`, at the
    /// time `now`, and hands back the row as it stands afterwards. Every
    /// field of the patch is written, whether it differs or not, and the row
    /// is stamped with `now`.
    fn update_by_id_at(
        conn: &mut Table<Self::Item>,
        pid: i32,
        obj: &Self::PatchItem,
        now: Timestamp,
    ) -> (r: Result<Self::Item, MapperError>)
        ensures
            match lookup(old(conn).rows(), pid as int) {
                Some(previous) => is_revision(r, previous, now, old(conn).rows(), final(conn).rows())
                    && Self::is_revised(r->Ok_0, previous, *obj, now),
                None => is_not_found(r, old(conn).rows(), final(conn).rows()),
            },
            final(conn).last_id() == old(conn).last_id(),
            is_table_state(final(conn).rows(), final(conn).last_id()),
    {
        match conn.find(pid) {
            None => Err(MapperError::NotFound),
            Some(previous) => {
                let row = Self::revise(&previous, obj, now);
                let stored = row.duplicate();
                conn.replace(row);
                Ok(stored)
            },
        }
    }

    /// Applies `obj` to the row that carries the identifier `pid`, stamped
    /// with the time that the clock shows.
    fn update_by_id(conn: &mut Table<Self::Item>, pid: i32, obj: &Self::PatchItem) -> (r: Result<
        Self::Item,
        MapperError,
    >)
        ensures
            match lookup(old(conn).rows(), pid as int) {
                Some(previous) => exists|now: Timestamp| #[trigger]
                    is_revision(r, previous, now, old(conn).rows(), final(conn).rows())
                        && Self::is_revised(r->Ok_0, previous, *obj, now),
                None => is_not_found(r, old(conn).rows(), final(conn).rows()),
            },
            final(conn).last_id() == old(conn).last_id(),
            is_table_state(final(conn).rows(), final(conn).last_id()),
    {
        let now = get_e8_time();
        Self::update_by_id_at(conn, pid, obj, now)
    }
}

/// What a search by identifier hands back: the row it found, or the word
/// that there is none.
pub open spec fn found<R>(row: Option<R>) -> Result<R, MapperError> {
    match row {
        Some(row) => Ok(row),
        None => Err(MapperError::NotFound),
    }
}

/// Whether `r` and `after` are what an update of `previous` at the time `now`
/// owes, whatever the patch holds: a row under the same identifier, stamped
/// with `now`, handed back and put in the place of `previous`.
pub open spec fn is_revision<R: Record>(
    r: Result<R, MapperError>,
    previous: R,
    now: Timestamp,
    before: Seq<R>,
    after: Seq<R>,
) -> bool {
    r is Ok && r->Ok_0.key() == previous.key() && r->Ok_0.touched() == Some(now) && after
        == with_replaced(before, r->Ok_0)
}

/// Whether `r` and `after` are what an update owes where no row carries the
/// identifier: the word that there is none, and the rows as they were.
pub open spec fn is_not_found<R: Record>(
    r: Result<R, MapperError>,
    before: Seq<R>,
    after: Seq<R>,
) -> bool {
    r == Err::<R, MapperError>(MapperError::NotFound) && after == before
}

/// What a listing asks of the storage once the rows are counted, and the
/// descriptor that goes out with the answer.
#[derive(Debug, PartialEq, Eq)]
pub struct PagePlan<C> {
    pub select: Select<C>,
    pub pagination: Pagination,
}

/// Plans one page of the rows that meet `conditions`, of which there are
/// `total_count`: the statement that asks for the page that holds the offset
/// of the request, and the descriptor of that page. A request that describes
/// no page gets the error that says why.
pub fn plan_page<C>(
    conditions: Vec<Condition<C>>,
    pagination: &PaginationParam,
    total_count: u64,
) -> (r: Result<PagePlan<C>, MapperError>)
    ensures
        match page_error(pagination.limit_or_default(), pagination.offset_or_default()) {
            Some(e) => r == Err::<PagePlan<C>, MapperError>(e),
            None => r is Ok && r->Ok_0.select@ == page_select(
                condition_views(conditions@),
                pagination.limit_or_default(),
                pagination.offset_or_default(),
            ) && r->Ok_0.pagination@ == page_descriptor(
                pagination.limit_or_default(),
                pagination.offset_or_default(),
                total_count as int,
            ),
        },
{
    match compute_page(pagination, total_count) {
        Err(e) => Err(e),
        Ok(descriptor) => {
            let limit = pagination.page_size();
            let offset = pagination.start();
            proof {
                lemma_page_bounds(limit as int, offset as int, total_count as int);
            }
            let start: u64 = (descriptor.page - 1) * (limit as u64);
            let select = Select { conditions, limit: limit as u64, offset: start };
            Ok(PagePlan { select, pagination: descriptor })
        },
    }
}

/// One page of the rows that meet `conditions`. The request is looked at
/// before the table is.
fn list_page<R: Record>(
    conn: &Table<R>,
    conditions: Vec<Condition<R::Column>>,
    pagination: &PaginationParam,
) -> (r: Result<Data<Vec<R>>, MapperError>)
    ensures
        is_listing(r, conn.rows(), condition_views(conditions@), *pagination),
        is_table_state(conn.rows(), conn.last_id()),
{
    proof {
        use_type_invariant(conn);
    }
    match pagination.validate() {
        Err(e) => Err(e),
        Ok(()) => {
            let total = conn.count(&conditions);
            match plan_page(conditions, pagination, total) {
                Err(e) => Err(e),
                Ok(plan) => {
                    let data = conn.select(&plan.select);
                    Ok(Data::new(data, plan.pagination))
                },
            }
        },
    }
}

/// Whether two listings are the same: the same rows in the same order under
/// the same descriptor, or the same error.
pub open spec fn same_listing<R: Record>(
    a: Result<Data<Vec<R>>, MapperError>,
    b: Result<Data<Vec<R>>, MapperError>,
) -> bool {
    match (a, b) {
        (Ok(a), Ok(b)) => a.data@ == b.data@ && a.pagination@ == b.pagination@,
        (Err(a), Err(b)) => a == b,
        _ => false,
    }
}

/// Asked twice for the same page of the same rows, a listing answers the
/// same twice: reads write nothing, and the rows, the conditions and the
/// request fix the answer.
pub proof fn lemma_listing_repeats<R: Record>(
    first: Result<Data<Vec<R>>, MapperError>,
    second: Result<Data<Vec<R>>, MapperError>,
    rows: Seq<R>,
    conditions: Seq<ConditionView<R::Column>>,
    pagination: PaginationParam,
)
    requires
        is_listing(first, rows, conditions, pagination),
        is_listing(second, rows, conditions, pagination),
    ensures
        same_listing(first, second),
{
}

/// A search under narrower conditions finds no more rows than the search
/// under wider ones: it counts no more rows, shows no more rows on the same
/// page, and neither counts more rows than the table holds.
pub proof fn lemma_narrower_listing_finds_fewer<R: Record>(
    wide: Result<Data<Vec<R>>, MapperError>,
    narrow: Result<Data<Vec<R>>, MapperError>,
    rows: Seq<R>,
    wider: Seq<ConditionView<R::Column>>,
    narrower: Seq<ConditionView<R::Column>>,
    pagination: PaginationParam,
)
    requires
        forall|row: R| #[trigger] satisfies(row, narrower) ==> satisfies(row, wider),
        is_listing(wide, rows, wider, pagination),
        is_listing(narrow, rows, narrower, pagination),
    ensures
        wide is Ok <==> narrow is Ok,
        wide is Ok ==> narrow->Ok_0.pagination.total_count <= wide->Ok_0.pagination.total_count
            <= rows.len(),
        wide is Ok ==> narrow->Ok_0.data@.len() <= wide->Ok_0.data@.len(),
{
    lemma_narrower_finds_fewer(rows, wider, narrower);
    rows.lemma_filter_len(|row: R| satisfies(row, wider));
    if wide is Ok {
        let limit = pagination.limit_or_default();
        let offset = pagination.offset_or_default();
        lemma_page_bounds(limit, offset, 0);
        lemma_newest_first(matching(rows, wider));
        lemma_newest_first(matching(rows, narrower));
    }
}

/// One more condition, or several more, never finds more rows: conditions
/// are joined by "and", so what meets the longer list meets the shorter one.
pub proof fn lemma_more_conditions_list_fewer<R: Record>(
    wide: Result<Data<Vec<R>>, MapperError>,
    narrow: Result<Data<Vec<R>>, MapperError>,
    rows: Seq<R>,
    conditions: Seq<ConditionView<R::Column>>,
    more: Seq<ConditionView<R::Column>>,
    pagination: PaginationParam,
)
    requires
        is_listing(wide, rows, conditions, pagination),
        is_listing(narrow, rows, conditions + more, pagination),
    ensures
        wide is Ok <==> narrow is Ok,
        wide is Ok ==> narrow->Ok_0.pagination.total_count <= wide->Ok_0.pagination.total_count
            <= rows.len(),
        wide is Ok ==> narrow->Ok_0.data@.len() <= wide->Ok_0.data@.len(),
{
    assert forall|row: R| #[trigger] satisfies(row, conditions + more) implies satisfies(
        row,
        conditions,
    ) by {
        lemma_satisfies_both(row, conditions, more);
    }
    lemma_narrower_listing_finds_fewer(wide, narrow, rows, conditions, conditions + more, pagination);
}

/// An update stamps the row with the time it is made at, whatever the patch
/// holds; where that time is not earlier than the stamp the row had, the
/// stamp does not go back.
pub proof fn lemma_update_advances<R: Record>(
    r: Result<R, MapperError>,
    previous: R,
    now: Timestamp,
    before: Seq<R>,
    after: Seq<R>,
)
    requires
        is_revision(r, previous, now, before, after),
        previous.touched() matches Some(stamp) ==> now.at_or_after(stamp),
    ensures
        r->Ok_0.touched() == Some(now),
        previous.touched() matches Some(stamp) ==> r->Ok_0.touched()->0.at_or_after(stamp),
{
}

/// A row that was just stored is found under its identifier, equal to the
/// row that the store handed back.
pub proof fn lemma_stored_row_is_found<R: Record>(rows: Seq<R>, last_id: int, item: R)
    requires
        is_table_state(rows, last_id),
        last_id < item.key() <= i32::MAX,
    ensures
        is_table_state(rows.push(item), item.key()),
        found(lookup(rows.push(item), item.key())) == Ok::<R, MapperError>(item),
{
    let after = rows.push(item);
    assert forall|i: int, j: int| 0 <= i < j < after.len() implies (#[trigger] after[i]).key() < (
    #[trigger] after[j]).key() by {
        assert(after[i] == rows[i]);
        if j < rows.len() {
            assert(after[j] == rows[j]);
        }
    }
    assert forall|i: int| 0 <= i < after.len() implies 0 < (#[trigger] after[i]).key()
        <= item.key() by {
        if i < rows.len() {
            assert(after[i] == rows[i]);
        }
    }
    assert(after[rows.len() as int] == item);
    lemma_key_index(after, item.key(), rows.len() as int);
}

/// An identifier that no row carries is not found.
pub proof fn lemma_absent_row_is_not_found<R: Record>(rows: Seq<R>, id: int)
    requires
        !has_key(rows, id),
    ensures
        found(lookup(rows, id)) == Err::<R, MapperError>(MapperError::NotFound),
{
}

/// After a row was taken out, its identifier is not found any more, and the
/// other rows are found as before.
pub proof fn lemma_deleted_row_is_not_found<R: Record>(rows: Seq<R>, last_id: int, id: int)
    requires
        is_table_state(rows, last_id),
    ensures
        is_table_state(without(rows, id), last_id),
        found(lookup(without(rows, id), id)) == Err::<R, MapperError>(MapperError::NotFound),
        forall|other: int| other != id ==> lookup(without(rows, id), other) == lookup(rows, other),
{
    let after = without(rows, id);
    if has_key(rows, id) {
        let at = key_index(rows, id);
        assert forall|i: int| 0 <= i < after.len() implies (#[trigger] after[i]).key() != id && 0
            < after[i].key() <= last_id by {
            if i < at {
                assert(after[i] == rows[i]);
                assert(rows[i].key() < rows[at].key());
            } else {
                assert(after[i] == rows[i + 1]);
                assert(rows[at].key() < rows[i + 1].key());
            }
        }
        assert forall|i: int, j: int| 0 <= i < j < after.len() implies (#[trigger] after[i]).key()
            < (#[trigger] after[j]).key() by {
            let a = if i < at {
                i
            } else {
                i + 1
            };
            let b = if j < at {
                j
            } else {
                j + 1
            };
            assert(after[i] == rows[a] && after[j] == rows[b]);
        }
        assert forall|other: int| other != id implies lookup(after, other) == lookup(
            rows,
            other,
        ) by {
            if has_key(rows, other) {
                let k = key_index(rows, other);
                let moved = if k < at {
                    k
                } else {
                    k - 1
                };
                assert(after[moved] == rows[k]);
                lemma_key_index(after, other, moved);
            } else if has_key(after, other) {
                let k = key_index(after, other);
                let from = if k < at {
                    k
                } else {
                    k + 1
                };
                assert(after[k] == rows[from]);
            }
        }
    }
}

} // verus!
