//! Conditions on the columns of a row, and the statement that asks a storage
//! for one page of the rows that meet them.

use crate::record::{number_of, text_of, Cell, CellView, Record};
use crate::text::{contains, contains_text};
use crate::time::Timestamp;
use vstd::prelude::*;

verus! {

/// A test on the value of one column.
#[derive(Debug, PartialEq, Eq)]
pub enum Test {
    /// The column holds exactly this number.
    Equals(i32),
    /// The column holds a text in which this text occurs.
    Contains(String),
    /// The column holds this point in time or a later one.
    AtLeast(Timestamp),
    /// The column holds this point in time or an earlier one.
    AtMost(Timestamp),
}

/// A test on the value of one column, as mathematics sees it.
pub enum TestView {
    Equals(int),
    Contains(Seq<char>),
    AtLeast(Timestamp),
    AtMost(Timestamp),
}

impl View for Test {
    type V = TestView;

    open spec fn view(&self) -> TestView {
        match *self {
            Test::Equals(v) => TestView::Equals(v as int),
            Test::Contains(part) => TestView::Contains(part@),
            Test::AtLeast(bound) => TestView::AtLeast(bound),
            Test::AtMost(bound) => TestView::AtMost(bound),
        }
    }
}

/// Whether `cell` passes `test`. An empty cell passes no test, and neither
/// does a cell of another kind than the test asks about.
pub open spec fn passes(test: TestView, cell: CellView) -> bool {
    match (test, cell) {
        (TestView::Equals(v), CellView::Int(x)) => x == v,
        (TestView::Contains(part), CellView::Text(text)) => contains_text(text, part),
        (TestView::AtLeast(bound), CellView::Time(t)) => t.at_or_after(bound),
        (TestView::AtMost(bound), CellView::Time(t)) => t.at_or_before(bound),
        _ => false,
    }
}

impl Test {
    /// Whether `cell` passes this test.
    pub fn admits(&self, cell: &Cell<'_>) -> (r: bool)
        ensures
            r == passes(self@, cell@),
    {
        match (self, cell) {
            (Test::Equals(v), Cell::Int(x)) => *x == *v,
            (Test::Contains(part), Cell::Text(text)) => contains(text, part.as_str()),
            (Test::AtLeast(bound), Cell::Time(t)) => t.is_at_or_after(bound),
            (Test::AtMost(bound), Cell::Time(t)) => t.is_at_or_before(bound),
            _ => false,
        }
    }
}

/// One condition of a filter: a test on a named column.
#[derive(Debug, PartialEq, Eq)]
pub struct Condition<C> {
    pub column: C,
    pub test: Test,
}

/// A condition as mathematics sees it.
pub struct ConditionView<C> {
    pub column: C,
    pub test: TestView,
}

impl<C> View for Condition<C> {
    type V = ConditionView<C>;

    open spec fn view(&self) -> ConditionView<C> {
        ConditionView { column: self.column, test: self.test@ }
    }
}

/// The conditions of a list, each as mathematics sees it.
pub open spec fn condition_views<C>(conditions: Seq<Condition<C>>) -> Seq<ConditionView<C>> {
    conditions.map_values(|c: Condition<C>| c@)
}

/// Whether `row` meets every one of `conditions`.
pub open spec fn satisfies<R: Record>(row: R, conditions: Seq<ConditionView<R::Column>>) -> bool {
    forall|i: int|
        0 <= i < conditions.len() ==> passes(
            (#[trigger] conditions[i]).test,
            row.cell_at(conditions[i].column),
        )
}

/// The rows among `rows` that meet every one of `conditions`, in their order.
pub open spec fn matching<R: Record>(
    rows: Seq<R>,
    conditions: Seq<ConditionView<R::Column>>,
) -> Seq<R> {
    rows.filter(|row: R| satisfies(row, conditions))
}

/// Whether `row` meets every one of `conditions`.
pub fn meets<R: Record>(row: &R, conditions: &Vec<Condition<R::Column>>) -> (r: bool)
    ensures
        r == satisfies(*row, condition_views(conditions@)),
{
    let mut i: usize = 0;
    while i < conditions.len()
        invariant
            i <= conditions.len(),
            forall|k: int|
                0 <= k < i ==> passes(
                    (#[trigger] condition_views(conditions@)[k]).test,
                    row.cell_at(condition_views(conditions@)[k].column),
                ),
        decreases conditions.len() - i,
    {
        let condition = &conditions[i];
        let cell = row.cell(condition.column);
        if !condition.test.admits(&cell) {
            assert(condition_views(conditions@)[i as int] == condition@);
            return false;
        }
        assert(condition_views(conditions@)[i as int] == condition@);
        i += 1;
    }
    true
}

/// Whether a row touched at `a` may stand before a row touched at `b` in a
/// listing that shows the most recently touched rows first. Rows that do not
/// say when they were touched come first of all.
pub open spec fn newer_or_equal(a: Option<Timestamp>, b: Option<Timestamp>) -> bool {
    match (a, b) {
        (None, _) => true,
        (Some(_), None) => false,
        (Some(x), Some(y)) => x.at_or_after(y),
    }
}

/// Whether `rows` stand with the most recently touched first.
pub open spec fn is_newest_first<R: Record>(rows: Seq<R>) -> bool {
    forall|i: int, j: int|
        0 <= i <= j < rows.len() ==> newer_or_equal(
            (#[trigger] rows[i]).touched(),
            (#[trigger] rows[j]).touched(),
        )
}

/// Where `row` goes into `sorted`: behind every row that may stand before it.
pub open spec fn place_of<R: Record>(sorted: Seq<R>, row: R) -> int
    decreases sorted.len(),
{
    if sorted.len() == 0 {
        0
    } else if newer_or_equal(sorted.last().touched(), row.touched()) {
        sorted.len() as int
    } else {
        place_of(sorted.drop_last(), row)
    }
}

/// `rows` with the most recently touched first. Rows touched at the same
/// time keep the order they had.
pub open spec fn newest_first<R: Record>(rows: Seq<R>) -> Seq<R>
    decreases rows.len(),
{
    if rows.len() == 0 {
        rows
    } else {
        let rest = newest_first(rows.drop_last());
        rest.insert(place_of(rest, rows.last()), rows.last())
    }
}

/// The rows of `rows` from position `offset` on, `limit` of them at most.
pub open spec fn window<R>(rows: Seq<R>, offset: int, limit: int) -> Seq<R> {
    let from = if offset < rows.len() {
        offset
    } else {
        rows.len() as int
    };
    let to = if from + limit < rows.len() {
        from + limit
    } else {
        rows.len() as int
    };
    rows.subrange(from, to)
}

/// The place of a row lies within the sequence, every row before it may
/// stand before the row, and the row at the place, if there is one, may not.
pub proof fn lemma_place_of<R: Record>(sorted: Seq<R>, row: R)
    requires
        is_newest_first(sorted),
    ensures
        0 <= place_of(sorted, row) <= sorted.len(),
        forall|k: int|
            0 <= k < place_of(sorted, row) ==> newer_or_equal(
                (#[trigger] sorted[k]).touched(),
                row.touched(),
            ),
        forall|k: int|
            place_of(sorted, row) <= k < sorted.len() ==> !newer_or_equal(
                (#[trigger] sorted[k]).touched(),
                row.touched(),
            ),
    decreases sorted.len(),
{
    if sorted.len() > 0 {
        if newer_or_equal(sorted.last().touched(), row.touched()) {
            assert forall|k: int| 0 <= k < sorted.len() implies newer_or_equal(
                (#[trigger] sorted[k]).touched(),
                row.touched(),
            ) by {
                let a = sorted[k].touched();
                let b = sorted.last().touched();
                assert(newer_or_equal(a, b));
            }
        } else {
            let rest = sorted.drop_last();
            assert forall|i: int, j: int| 0 <= i <= j < rest.len() implies newer_or_equal(
                (#[trigger] rest[i]).touched(),
                (#[trigger] rest[j]).touched(),
            ) by {
                assert(rest[i] == sorted[i] && rest[j] == sorted[j]);
            }
            lemma_place_of(rest, row);
            assert forall|k: int| 0 <= k < place_of(sorted, row) implies newer_or_equal(
                (#[trigger] sorted[k]).touched(),
                row.touched(),
            ) by {
                assert(sorted[k] == rest[k]);
            }
            assert forall|k: int| place_of(sorted, row) <= k < sorted.len() implies !newer_or_equal(
                (#[trigger] sorted[k]).touched(),
                row.touched(),
            ) by {
                if k < rest.len() {
                    assert(sorted[k] == rest[k]);
                }
            }
        }
    }
}

/// A listing with the most recently touched first holds the rows it was made
/// from, each as often as before, and no row in it stands before a row that
/// was touched later.
pub proof fn lemma_newest_first<R: Record>(rows: Seq<R>)
    ensures
        is_newest_first(newest_first(rows)),
        newest_first(rows).len() == rows.len(),
        newest_first(rows).to_multiset() == rows.to_multiset(),
    decreases rows.len(),
{
    if rows.len() > 0 {
        let rest = newest_first(rows.drop_last());
        let row = rows.last();
        let p = place_of(rest, row);
        let out = rest.insert(p, row);
        lemma_newest_first(rows.drop_last());
        lemma_place_of(rest, row);
        assert forall|i: int, j: int| 0 <= i <= j < out.len() implies newer_or_equal(
            (#[trigger] out[i]).touched(),
            (#[trigger] out[j]).touched(),
        ) by {
            if j < p {
                assert(out[i] == rest[i] && out[j] == rest[j]);
            } else if j == p {
                if i < p {
                    assert(out[i] == rest[i]);
                }
            } else {
                assert(out[j] == rest[j - 1]);
                if i < p {
                    assert(out[i] == rest[i]);
                } else if i == p {
                    let a = row.touched();
                    let b = rest[j - 1].touched();
                    assert(!newer_or_equal(b, a));
                } else {
                    assert(out[i] == rest[i - 1]);
                }
            }
        }
        assert(out.to_multiset() =~= rest.to_multiset().insert(row)) by {
            out.to_multiset_ensures();
            assert(out.remove(p) =~= rest);
            assert(out[p] == row);
            assert(out.contains(row));
        }
        assert(rows.to_multiset() =~= rows.drop_last().to_multiset().insert(row)) by {
            rows.drop_last().to_multiset_ensures();
            assert(rows =~= rows.drop_last().push(row));
        }
    }
}

/// The statement that asks for one page: the rows that meet `conditions`,
/// the most recently touched first, `limit` of them at most from position
/// `offset` on.
#[derive(Debug, PartialEq, Eq)]
pub struct Select<C> {
    pub conditions: Vec<Condition<C>>,
    pub limit: u64,
    pub offset: u64,
}

/// A page statement as mathematics sees it.
pub struct SelectView<C> {
    pub conditions: Seq<ConditionView<C>>,
    pub limit: int,
    pub offset: int,
}

impl<C> View for Select<C> {
    type V = SelectView<C>;

    open spec fn view(&self) -> SelectView<C> {
        SelectView {
            conditions: condition_views(self.conditions@),
            limit: self.limit as int,
            offset: self.offset as int,
        }
    }
}

impl<C> Select<C> {
    /// The limit as a storage takes it: a signed number, the largest one
    /// where the limit lies past it.
    pub fn storage_limit(&self) -> (r: i64)
        ensures
            r == if self.limit <= i64::MAX {
                self.limit as int
            } else {
                i64::MAX as int
            },
    {
        if self.limit <= i64::MAX as u64 {
            self.limit as i64
        } else {
            i64::MAX
        }
    }

    /// The offset as a storage takes it: a signed number, the largest one
    /// where the offset lies past it.
    pub fn storage_offset(&self) -> (r: i64)
        ensures
            r == if self.offset <= i64::MAX {
                self.offset as int
            } else {
                i64::MAX as int
            },
    {
        if self.offset <= i64::MAX as u64 {
            self.offset as i64
        } else {
            i64::MAX
        }
    }
}

/// What a table that holds `rows` answers to `select`.
pub open spec fn answer<R: Record>(rows: Seq<R>, select: SelectView<R::Column>) -> Seq<R> {
    window(newest_first(matching(rows, select.conditions)), select.offset, select.limit)
}

/// Whether some row of `rows` carries the identifier `id`.
pub open spec fn has_key<R: Record>(rows: Seq<R>, id: int) -> bool {
    exists|i: int| 0 <= i < rows.len() && (#[trigger] rows[i]).key() == id
}

/// Whether the identifiers of `rows` grow from each row to the next; no two
/// rows then share one.
pub open spec fn keys_ascend<R: Record>(rows: Seq<R>) -> bool {
    forall|i: int, j: int|
        0 <= i < j < rows.len() ==> (#[trigger] rows[i]).key() < (#[trigger] rows[j]).key()
}

/// The position of the row of `rows` that carries the identifier `id`.
pub open spec fn key_index<R: Record>(rows: Seq<R>, id: int) -> int {
    choose|i: int| 0 <= i < rows.len() && (#[trigger] rows[i]).key() == id
}

/// The row of `rows` that carries the identifier `id`, if there is one.
pub open spec fn lookup<R: Record>(rows: Seq<R>, id: int) -> Option<R> {
    if has_key(rows, id) {
        Some(rows[key_index(rows, id)])
    } else {
        None
    }
}

/// `rows` without the row that carries the identifier `id`.
pub open spec fn without<R: Record>(rows: Seq<R>, id: int) -> Seq<R> {
    if has_key(rows, id) {
        rows.remove(key_index(rows, id))
    } else {
        rows
    }
}

/// `rows` with `row` in the place of the row that carries its identifier.
pub open spec fn with_replaced<R: Record>(rows: Seq<R>, row: R) -> Seq<R> {
    if has_key(rows, row.key()) {
        rows.update(key_index(rows, row.key()), row)
    } else {
        rows
    }
}

/// Where identifiers ascend, the row that carries one is found at one place
/// only.
pub proof fn lemma_key_index<R: Record>(rows: Seq<R>, id: int, i: int)
    requires
        keys_ascend(rows),
        0 <= i < rows.len(),
        rows[i].key() == id,
    ensures
        has_key(rows, id),
        key_index(rows, id) == i,
        lookup(rows, id) == Some(rows[i]),
{
    let j = key_index(rows, id);
    assert(0 <= j < rows.len() && rows[j].key() == id);
    if j < i {
        assert(rows[j].key() < rows[i].key());
    } else if i < j {
        assert(rows[i].key() < rows[j].key());
    }
}

/// One more row at the end of a sequence adds itself to the matching rows if
/// it meets the conditions, and nothing if it does not.
pub proof fn lemma_matching_step<R: Record>(
    rows: Seq<R>,
    conditions: Seq<ConditionView<R::Column>>,
    i: int,
)
    requires
        0 <= i < rows.len(),
    ensures
        matching(rows.take(i + 1), conditions) == if satisfies(rows[i], conditions) {
            matching(rows.take(i), conditions).push(rows[i])
        } else {
            matching(rows.take(i), conditions)
        },
{
    reveal(Seq::filter);
    assert(rows.take(i + 1).drop_last() =~= rows.take(i));
    assert(rows.take(i + 1).last() == rows[i]);
}

/// The condition that a filter field for an exact number adds: the test for
/// that number where the field is there, nothing where it is not.
pub open spec fn when_equals<C>(column: C, value: Option<int>) -> Seq<ConditionView<C>> {
    match value {
        Some(v) => seq![ConditionView { column, test: TestView::Equals(v) }],
        None => Seq::empty(),
    }
}

/// The condition that a filter field for a part of a text adds.
pub open spec fn when_contains<C>(column: C, value: Option<Seq<char>>) -> Seq<ConditionView<C>> {
    match value {
        Some(part) => seq![ConditionView { column, test: TestView::Contains(part) }],
        None => Seq::empty(),
    }
}

/// The condition that a filter field for an earliest time adds. The bound
/// itself is within the range.
pub open spec fn when_at_least<C>(column: C, value: Option<Timestamp>) -> Seq<ConditionView<C>> {
    match value {
        Some(bound) => seq![ConditionView { column, test: TestView::AtLeast(bound) }],
        None => Seq::empty(),
    }
}

/// The condition that a filter field for a latest time adds. The bound
/// itself is within the range.
pub open spec fn when_at_most<C>(column: C, value: Option<Timestamp>) -> Seq<ConditionView<C>> {
    match value {
        Some(bound) => seq![ConditionView { column, test: TestView::AtMost(bound) }],
        None => Seq::empty(),
    }
}

/// Adds to `out` the condition of a filter field for an exact number.
pub fn push_equals<C: Copy>(out: &mut Vec<Condition<C>>, column: C, value: &Option<i32>)
    ensures
        condition_views(final(out)@) == condition_views(old(out)@) + when_equals(
            column,
            number_of(*value),
        ),
{
    match value {
        Some(v) => {
            out.push(Condition { column, test: Test::Equals(*v) });
        },
        None => {},
    }
    assert(condition_views(out@) =~= condition_views(old(out)@) + when_equals(
        column,
        number_of(*value),
    ));
}

/// Adds to `out` the condition of a filter field for a part of a text.
pub fn push_contains<C: Copy>(out: &mut Vec<Condition<C>>, column: C, value: &Option<String>)
    ensures
        condition_views(final(out)@) == condition_views(old(out)@) + when_contains(
            column,
            text_of(*value),
        ),
{
    match value {
        Some(part) => {
            out.push(Condition { column, test: Test::Contains(part.clone()) });
        },
        None => {},
    }
    assert(condition_views(out@) =~= condition_views(old(out)@) + when_contains(
        column,
        text_of(*value),
    ));
}

/// Adds to `out` the condition of a filter field for an earliest time.
pub fn push_at_least<C: Copy>(out: &mut Vec<Condition<C>>, column: C, value: &Option<Timestamp>)
    ensures
        condition_views(final(out)@) == condition_views(old(out)@) + when_at_least(column, *value),
{
    match value {
        Some(bound) => {
            out.push(Condition { column, test: Test::AtLeast(*bound) });
        },
        None => {},
    }
    assert(condition_views(out@) =~= condition_views(old(out)@) + when_at_least(column, *value));
}

/// Adds to `out` the condition of a filter field for a latest time.
pub fn push_at_most<C: Copy>(out: &mut Vec<Condition<C>>, column: C, value: &Option<Timestamp>)
    ensures
        condition_views(final(out)@) == condition_views(old(out)@) + when_at_most(column, *value),
{
    match value {
        Some(bound) => {
            out.push(Condition { column, test: Test::AtMost(*bound) });
        },
        None => {},
    }
    assert(condition_views(out@) =~= condition_views(old(out)@) + when_at_most(column, *value));
}

/// A row meets two lists of conditions put together exactly when it meets
/// each of the two: conditions are joined by "and".
pub proof fn lemma_satisfies_both<R: Record>(
    row: R,
    a: Seq<ConditionView<R::Column>>,
    b: Seq<ConditionView<R::Column>>,
)
    ensures
        satisfies(row, a + b) <==> satisfies(row, a) && satisfies(row, b),
{
    let both = a + b;
    if satisfies(row, both) {
        assert forall|i: int| 0 <= i < a.len() implies passes(
            (#[trigger] a[i]).test,
            row.cell_at(a[i].column),
        ) by {
            assert(both[i] == a[i]);
        }
        assert forall|i: int| 0 <= i < b.len() implies passes(
            (#[trigger] b[i]).test,
            row.cell_at(b[i].column),
        ) by {
            assert(both[a.len() + i] == b[i]);
        }
    }
    if satisfies(row, a) && satisfies(row, b) {
        assert forall|i: int| 0 <= i < both.len() implies passes(
            (#[trigger] both[i]).test,
            row.cell_at(both[i].column),
        ) by {
            if i < a.len() {
                assert(both[i] == a[i]);
            } else {
                assert(both[i] == b[i - a.len()]);
            }
        }
    }
}

/// Where every row that meets `narrow` also meets `wide`, `narrow` finds no
/// more rows than `wide` does.
pub proof fn lemma_narrower_finds_fewer<R: Record>(
    rows: Seq<R>,
    wide: Seq<ConditionView<R::Column>>,
    narrow: Seq<ConditionView<R::Column>>,
)
    requires
        forall|row: R| #[trigger] satisfies(row, narrow) ==> satisfies(row, wide),
    ensures
        matching(rows, narrow).len() <= matching(rows, wide).len(),
    decreases rows.len(),
{
    reveal(Seq::filter);
    if rows.len() > 0 {
        lemma_narrower_finds_fewer(rows.drop_last(), wide, narrow);
    }
}

/// One more condition never finds more rows: what meets the longer list
/// meets the shorter one.
pub proof fn lemma_more_conditions_find_fewer<R: Record>(
    rows: Seq<R>,
    conditions: Seq<ConditionView<R::Column>>,
    more: Seq<ConditionView<R::Column>>,
)
    ensures
        matching(rows, conditions + more).len() <= matching(rows, conditions).len(),
        matching(rows, conditions).len() <= rows.len(),
{
    assert forall|row: R| #[trigger] satisfies(row, conditions + more) implies satisfies(
        row,
        conditions,
    ) by {
        lemma_satisfies_both(row, conditions, more);
    }
    lemma_narrower_finds_fewer(rows, conditions, conditions + more);
    rows.lemma_filter_len(|row: R| satisfies(row, conditions));
}

/// Whether an optional text is there and holds `part`.
pub open spec fn holds_part(text: Option<Seq<char>>, part: Seq<char>) -> bool {
    text matches Some(text) && contains_text(text, part)
}

/// Whether an optional point in time is there and is `bound` or later.
pub open spec fn is_at_least(time: Option<Timestamp>, bound: Timestamp) -> bool {
    time matches Some(t) && t.at_or_after(bound)
}

/// Whether an optional point in time is there and is `bound` or earlier.
pub open spec fn is_at_most(time: Option<Timestamp>, bound: Timestamp) -> bool {
    time matches Some(t) && t.at_or_before(bound)
}

/// A row meets the conditions of one filter field exactly when the field is
/// absent or its test holds of the row.
pub proof fn lemma_satisfies_field<R: Record>(row: R, column: R::Column)
    ensures
        forall|v: Option<int>| #[trigger]
            satisfies(row, when_equals(column, v)) <==> (v matches Some(x) ==> passes(
                TestView::Equals(x),
                row.cell_at(column),
            )),
        forall|v: Option<Seq<char>>| #[trigger]
            satisfies(row, when_contains(column, v)) <==> (v matches Some(x) ==> passes(
                TestView::Contains(x),
                row.cell_at(column),
            )),
        forall|v: Option<Timestamp>| #[trigger]
            satisfies(row, when_at_least(column, v)) <==> (v matches Some(x) ==> passes(
                TestView::AtLeast(x),
                row.cell_at(column),
            )),
        forall|v: Option<Timestamp>| #[trigger]
            satisfies(row, when_at_most(column, v)) <==> (v matches Some(x) ==> passes(
                TestView::AtMost(x),
                row.cell_at(column),
            )),
{
    assert forall|v: Option<int>| #[trigger]
        satisfies(row, when_equals(column, v)) <==> (v matches Some(x) ==> passes(
            TestView::Equals(x),
            row.cell_at(column),
        )) by {
        let c = when_equals(column, v);
        if v is Some {
            assert(c[0].test == TestView::Equals(v->0));
        }
    }
    assert forall|v: Option<Seq<char>>| #[trigger]
        satisfies(row, when_contains(column, v)) <==> (v matches Some(x) ==> passes(
            TestView::Contains(x),
            row.cell_at(column),
        )) by {
        let c = when_contains(column, v);
        if v is Some {
            assert(c[0].test == TestView::Contains(v->0));
        }
    }
    assert forall|v: Option<Timestamp>| #[trigger]
        satisfies(row, when_at_least(column, v)) <==> (v matches Some(x) ==> passes(
            TestView::AtLeast(x),
            row.cell_at(column),
        )) by {
        let c = when_at_least(column, v);
        if v is Some {
            assert(c[0].test == TestView::AtLeast(v->0));
        }
    }
    assert forall|v: Option<Timestamp>| #[trigger]
        satisfies(row, when_at_most(column, v)) <==> (v matches Some(x) ==> passes(
            TestView::AtMost(x),
            row.cell_at(column),
        )) by {
        let c = when_at_most(column, v);
        if v is Some {
            assert(c[0].test == TestView::AtMost(v->0));
        }
    }
}

/// What a page statement hands out is in order, no longer than its limit,
/// and made of rows of the table that meet its conditions.
pub proof fn lemma_answer<R: Record>(rows: Seq<R>, select: SelectView<R::Column>)
    requires
        0 <= select.limit,
        0 <= select.offset,
    ensures
        is_newest_first(answer(rows, select)),
        answer(rows, select).len() <= select.limit,
        answer(rows, select).len() <= matching(rows, select.conditions).len() <= rows.len(),
        forall|i: int|
            0 <= i < answer(rows, select).len() ==> rows.contains(
                #[trigger] answer(rows, select)[i],
            ) && satisfies(answer(rows, select)[i], select.conditions),
{
    let wanted = |row: R| satisfies(row, select.conditions);
    let found = matching(rows, select.conditions);
    let sorted = newest_first(found);
    let page = answer(rows, select);
    lemma_newest_first(found);
    rows.lemma_filter_len(wanted);
    let from = if select.offset < sorted.len() {
        select.offset
    } else {
        sorted.len() as int
    };
    assert forall|i: int, j: int| 0 <= i <= j < page.len() implies newer_or_equal(
        (#[trigger] page[i]).touched(),
        (#[trigger] page[j]).touched(),
    ) by {
        assert(page[i] == sorted[from + i] && page[j] == sorted[from + j]);
    }
    assert forall|i: int| 0 <= i < page.len() implies rows.contains(#[trigger] page[i])
        && satisfies(page[i], select.conditions) by {
        let row = page[i];
        assert(row == sorted[from + i]);
        assert(sorted.contains(row));
        sorted.to_multiset_ensures();
        found.to_multiset_ensures();
        assert(sorted.to_multiset().count(row) > 0);
        assert(found.to_multiset().count(row) > 0);
        assert(found.contains(row));
        let at = found.index_of(row);
        rows.lemma_filter_pred(wanted, at);
        rows.lemma_filter_contains_rev(wanted, row);
    }
}

} // verus!
