//! Rows and what they hold in their columns.

use crate::time::Timestamp;
use vstd::prelude::*;

verus! {

/// The text of an optional string.
pub open spec fn text_of(s: Option<String>) -> Option<Seq<char>> {
    match s {
        Some(s) => Some(s@),
        None => None,
    }
}

/// The number in an optional field.
pub open spec fn number_of(v: Option<i32>) -> Option<int> {
    match v {
        Some(v) => Some(v as int),
        None => None,
    }
}

/// What a row holds in one column.
#[derive(Clone, Copy, Debug)]
pub enum Cell<'a> {
    /// Nothing: the column is empty in this row.
    Null,
    Int(i32),
    Text(&'a str),
    Time(Timestamp),
}

/// What a row holds in one column, as mathematics sees it.
pub enum CellView {
    Null,
    Int(int),
    Text(Seq<char>),
    Time(Timestamp),
}

impl<'a> View for Cell<'a> {
    type V = CellView;

    open spec fn view(&self) -> CellView {
        match *self {
            Cell::Null => CellView::Null,
            Cell::Int(v) => CellView::Int(v as int),
            Cell::Text(t) => CellView::Text(t@),
            Cell::Time(t) => CellView::Time(t),
        }
    }
}

impl<'a> Cell<'a> {
    /// The cell of an optional number.
    pub fn of_number(number: Option<i32>) -> (r: Cell<'static>)
        ensures
            r@ == number_cell(number_of(number)),
    {
        match number {
            Some(v) => Cell::Int(v),
            None => Cell::Null,
        }
    }

    /// The cell of an optional text.
    pub fn of_text(text: &'a Option<String>) -> (r: Cell<'a>)
        ensures
            r@ == text_cell(text_of(*text)),
    {
        match text {
            Some(text) => Cell::Text(text.as_str()),
            None => Cell::Null,
        }
    }

    /// The cell of an optional point in time.
    pub fn of_time(time: Option<Timestamp>) -> (r: Cell<'static>)
        ensures
            r@ == time_cell(time),
    {
        match time {
            Some(t) => Cell::Time(t),
            None => Cell::Null,
        }
    }
}

/// The cell that holds an optional number.
pub open spec fn number_cell(v: Option<int>) -> CellView {
    match v {
        Some(v) => CellView::Int(v),
        None => CellView::Null,
    }
}

/// The cell that holds an optional text.
pub open spec fn text_cell(v: Option<Seq<char>>) -> CellView {
    match v {
        Some(v) => CellView::Text(v),
        None => CellView::Null,
    }
}

/// The cell that holds an optional point in time.
pub open spec fn time_cell(v: Option<Timestamp>) -> CellView {
    match v {
        Some(v) => CellView::Time(v),
        None => CellView::Null,
    }
}

/// A row of a table: it has an identifier, may carry the time of its last
/// change, and shows what it holds in each column.
pub trait Record: Sized {
    /// The names of the columns.
    type Column: Copy;

    /// The identifier of the row.
    spec fn key(&self) -> int;

    /// When the row was last changed, if it says.
    spec fn touched(&self) -> Option<Timestamp>;

    /// What the row holds in `column`.
    spec fn cell_at(&self, column: Self::Column) -> CellView;

    fn record_id(&self) -> (r: i32)
        ensures
            r == self.key(),
    ;

    fn last_touched(&self) -> (r: Option<Timestamp>)
        ensures
            r == self.touched(),
    ;

    fn cell(&self, column: Self::Column) -> (r: Cell<'_>)
        ensures
            r@ == self.cell_at(column),
    ;

    /// A copy of the row, equal to it in every field.
    fn duplicate(&self) -> (r: Self)
        ensures
            r == *self,
    ;
}

} // verus!
