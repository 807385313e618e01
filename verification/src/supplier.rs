//! Suppliers: the record, its creation and patch shapes, its filter, and the
//! mapper that offers the six operations on them.

use crate::mapper::MapperCRUD;
use crate::query::{
    condition_views, holds_part, is_at_least, is_at_most, lemma_narrower_finds_fewer,
    lemma_satisfies_both, lemma_satisfies_field, matching, passes, push_at_least, push_at_most,
    push_contains, push_equals, satisfies, when_at_least, when_at_most, when_contains,
    when_equals, Condition, ConditionView, Test, TestView,
};
use crate::record::{number_of, text_cell, text_of, time_cell, Cell, CellView, Record};
use crate::text::{
    contains_pattern, contains_pattern_text, contains_text, lemma_contains_pattern, like_matches,
};
use crate::time::Timestamp;
use vstd::prelude::*;

verus! {

/// A supplier as the storage holds it.
#[derive(Debug, PartialEq, Eq)]
pub struct Supplier {
    supplier_id: i32,
    name: String,
    address: Option<String>,
    phone_number: Option<String>,
    email: Option<String>,
    created_at: Option<Timestamp>,
    updated_at: Option<Timestamp>,
}

/// A supplier as mathematics sees it.
pub struct SupplierView {
    pub supplier_id: int,
    pub name: Seq<char>,
    pub address: Option<Seq<char>>,
    pub phone_number: Option<Seq<char>>,
    pub email: Option<Seq<char>>,
    pub created_at: Option<Timestamp>,
    pub updated_at: Option<Timestamp>,
}

impl View for Supplier {
    type V = SupplierView;

    closed spec fn view(&self) -> SupplierView {
        SupplierView {
            supplier_id: self.supplier_id as int,
            name: self.name@,
            address: text_of(self.address),
            phone_number: text_of(self.phone_number),
            email: text_of(self.email),
            created_at: self.created_at,
            updated_at: self.updated_at,
        }
    }
}

impl Supplier {
    pub fn new(
        supplier_id: i32,
        name: String,
        address: Option<String>,
        phone_number: Option<String>,
        email: Option<String>,
        created_at: Option<Timestamp>,
        updated_at: Option<Timestamp>,
    ) -> (r: Self)
        ensures
            r@ == (SupplierView {
                supplier_id: supplier_id as int,
                name: name@,
                address: text_of(address),
                phone_number: text_of(phone_number),
                email: text_of(email),
                created_at,
                updated_at,
            }),
    {
        Supplier { supplier_id, name, address, phone_number, email, created_at, updated_at }
    }

    pub fn supplier_id(&self) -> (r: i32)
        ensures
            r == self@.supplier_id,
    {
        self.supplier_id
    }

    pub fn name(&self) -> (r: &str)
        ensures
            r@ == self@.name,
    {
        self.name.as_str()
    }

    pub fn address(&self) -> (r: &Option<String>)
        ensures
            text_of(*r) == self@.address,
    {
        &self.address
    }

    pub fn phone_number(&self) -> (r: &Option<String>)
        ensures
            text_of(*r) == self@.phone_number,
    {
        &self.phone_number
    }

    pub fn email(&self) -> (r: &Option<String>)
        ensures
            text_of(*r) == self@.email,
    {
        &self.email
    }

    pub fn created_at(&self) -> (r: Option<Timestamp>)
        ensures
            r == self@.created_at,
    {
        self.created_at
    }

    pub fn updated_at(&self) -> (r: Option<Timestamp>)
        ensures
            r == self@.updated_at,
    {
        self.updated_at
    }
}

impl Clone for Supplier {
    fn clone(&self) -> (r: Self)
        ensures
            r == *self,
    {
        Supplier {
            supplier_id: self.supplier_id,
            name: self.name.clone(),
            address: self.address.clone(),
            phone_number: self.phone_number.clone(),
            email: self.email.clone(),
            created_at: self.created_at,
            updated_at: self.updated_at,
        }
    }
}

/// What a creation brings: a supplier without an identifier.
#[derive(Debug, PartialEq, Eq)]
pub struct PostSupplier {
    name: String,
    address: Option<String>,
    phone_number: Option<String>,
    email: Option<String>,
    created_at: Option<Timestamp>,
    updated_at: Option<Timestamp>,
}

/// A supplier yet to be stored, as mathematics sees it.
pub struct PostSupplierView {
    pub name: Seq<char>,
    pub address: Option<Seq<char>>,
    pub phone_number: Option<Seq<char>>,
    pub email: Option<Seq<char>>,
    pub created_at: Option<Timestamp>,
    pub updated_at: Option<Timestamp>,
}

impl View for PostSupplier {
    type V = PostSupplierView;

    closed spec fn view(&self) -> PostSupplierView {
        PostSupplierView {
            name: self.name@,
            address: text_of(self.address),
            phone_number: text_of(self.phone_number),
            email: text_of(self.email),
            created_at: self.created_at,
            updated_at: self.updated_at,
        }
    }
}

impl PostSupplier {
    pub fn new(
        name: String,
        address: Option<String>,
        phone_number: Option<String>,
        email: Option<String>,
        created_at: Option<Timestamp>,
        updated_at: Option<Timestamp>,
    ) -> (r: Self)
        ensures
            r@ == (PostSupplierView {
                name: name@,
                address: text_of(address),
                phone_number: text_of(phone_number),
                email: text_of(email),
                created_at,
                updated_at,
            }),
    {
        PostSupplier { name, address, phone_number, email, created_at, updated_at }
    }

    pub fn name(&self) -> (r: &str)
        ensures
            r@ == self@.name,
    {
        self.name.as_str()
    }

    pub fn address(&self) -> (r: &Option<String>)
        ensures
            text_of(*r) == self@.address,
    {
        &self.address
    }

    pub fn phone_number(&self) -> (r: &Option<String>)
        ensures
            text_of(*r) == self@.phone_number,
    {
        &self.phone_number
    }

    pub fn email(&self) -> (r: &Option<String>)
        ensures
            text_of(*r) == self@.email,
    {
        &self.email
    }

    pub fn created_at(&self) -> (r: Option<Timestamp>)
        ensures
            r == self@.created_at,
    {
        self.created_at
    }

    pub fn updated_at(&self) -> (r: Option<Timestamp>)
        ensures
            r == self@.updated_at,
    {
        self.updated_at
    }
}

impl Clone for PostSupplier {
    fn clone(&self) -> (r: Self)
        ensures
            r == *self,
    {
        PostSupplier {
            name: self.name.clone(),
            address: self.address.clone(),
            phone_number: self.phone_number.clone(),
            email: self.email.clone(),
            created_at: self.created_at,
            updated_at: self.updated_at,
        }
    }
}

/// What an update brings: the fields of a supplier that may change.
#[derive(Debug, PartialEq, Eq)]
pub struct PatchSupplier {
    name: String,
    address: Option<String>,
    phone_number: Option<String>,
    email: Option<String>,
}

/// The patch of a supplier as mathematics sees it.
pub struct PatchSupplierView {
    pub name: Seq<char>,
    pub address: Option<Seq<char>>,
    pub phone_number: Option<Seq<char>>,
    pub email: Option<Seq<char>>,
}

impl View for PatchSupplier {
    type V = PatchSupplierView;

    closed spec fn view(&self) -> PatchSupplierView {
        PatchSupplierView {
            name: self.name@,
            address: text_of(self.address),
            phone_number: text_of(self.phone_number),
            email: text_of(self.email),
        }
    }
}

impl PatchSupplier {
    pub fn new(
        name: String,
        address: Option<String>,
        phone_number: Option<String>,
        email: Option<String>,
    ) -> (r: Self)
        ensures
            r@ == (PatchSupplierView {
                name: name@,
                address: text_of(address),
                phone_number: text_of(phone_number),
                email: text_of(email),
            }),
    {
        PatchSupplier { name, address, phone_number, email }
    }

    pub fn name(&self) -> (r: &str)
        ensures
            r@ == self@.name,
    {
        self.name.as_str()
    }

    pub fn address(&self) -> (r: &Option<String>)
        ensures
            text_of(*r) == self@.address,
    {
        &self.address
    }

    pub fn phone_number(&self) -> (r: &Option<String>)
        ensures
            text_of(*r) == self@.phone_number,
    {
        &self.phone_number
    }

    pub fn email(&self) -> (r: &Option<String>)
        ensures
            text_of(*r) == self@.email,
    {
        &self.email
    }
}

impl Clone for PatchSupplier {
    fn clone(&self) -> (r: Self)
        ensures
            r == *self,
    {
        PatchSupplier {
            name: self.name.clone(),
            address: self.address.clone(),
            phone_number: self.phone_number.clone(),
            email: self.email.clone(),
        }
    }
}

/// What an update writes into the row of a supplier: a value for every column
/// that may change, and the time of the change.
#[derive(Debug, PartialEq, Eq)]
pub struct SupplierChanges {
    pub name: String,
    pub address: Option<String>,
    pub phone_number: Option<String>,
    pub email: Option<String>,
    pub updated_at: Option<Timestamp>,
}

/// What an update writes, as mathematics sees it.
pub struct SupplierChangesView {
    pub name: Seq<char>,
    pub address: Option<Seq<char>>,
    pub phone_number: Option<Seq<char>>,
    pub email: Option<Seq<char>>,
    pub updated_at: Option<Timestamp>,
}

impl View for SupplierChanges {
    type V = SupplierChangesView;

    open spec fn view(&self) -> SupplierChangesView {
        SupplierChangesView {
            name: self.name@,
            address: text_of(self.address),
            phone_number: text_of(self.phone_number),
            email: text_of(self.email),
            updated_at: self.updated_at,
        }
    }
}

impl PatchSupplierView {
    /// What an update with this patch writes at the time `now`: every field
    /// of the patch, whether it differs from the stored one or not, and `now`
    /// as the time of the last change.
    pub open spec fn changes(self, now: Timestamp) -> SupplierChangesView {
        SupplierChangesView {
            name: self.name,
            address: self.address,
            phone_number: self.phone_number,
            email: self.email,
            updated_at: Some(now),
        }
    }
}

impl PatchSupplier {
    /// What an update with this patch writes at the time `now`.
    pub fn changes(&self, now: Timestamp) -> (r: SupplierChanges)
        ensures
            r@ == self@.changes(now),
    {
        SupplierChanges {
            name: self.name.clone(),
            address: self.address.clone(),
            phone_number: self.phone_number.clone(),
            email: self.email.clone(),
            updated_at: Some(now),
        }
    }
}

/// The columns of the supplier table.
#[derive(Clone, Copy, Debug, PartialEq, Eq, Structural)]
pub enum SupplierColumn {
    SupplierId,
    Name,
    Address,
    PhoneNumber,
    Email,
    CreatedAt,
    UpdatedAt,
}

impl SupplierView {
    /// What the supplier holds in `column`.
    pub open spec fn cell_at(self, column: SupplierColumn) -> CellView {
        match column {
            SupplierColumn::SupplierId => CellView::Int(self.supplier_id),
            SupplierColumn::Name => CellView::Text(self.name),
            SupplierColumn::Address => text_cell(self.address),
            SupplierColumn::PhoneNumber => text_cell(self.phone_number),
            SupplierColumn::Email => text_cell(self.email),
            SupplierColumn::CreatedAt => time_cell(self.created_at),
            SupplierColumn::UpdatedAt => time_cell(self.updated_at),
        }
    }

    /// The supplier that `post` makes under the identifier `id`: every field
    /// as the creation brings it.
    pub open spec fn created(post: PostSupplierView, id: int) -> SupplierView {
        SupplierView {
            supplier_id: id,
            name: post.name,
            address: post.address,
            phone_number: post.phone_number,
            email: post.email,
            created_at: post.created_at,
            updated_at: post.updated_at,
        }
    }

    /// The row after `changes` were written into it: the columns that the
    /// changes name take their values, the others stay.
    pub open spec fn changed(self, changes: SupplierChangesView) -> SupplierView {
        SupplierView {
            supplier_id: self.supplier_id,
            name: changes.name,
            address: changes.address,
            phone_number: changes.phone_number,
            email: changes.email,
            created_at: self.created_at,
            updated_at: changes.updated_at,
        }
    }

    /// The supplier after `patch` was applied at the time `now`: every field
    /// of the patch overwrites the stored one, the time of the last change
    /// becomes `now`, and the identifier and the time of creation stay.
    pub open spec fn revised(self, patch: PatchSupplierView, now: Timestamp) -> SupplierView {
        self.changed(patch.changes(now))
    }
}

impl Record for Supplier {
    type Column = SupplierColumn;

    open spec fn key(&self) -> int {
        self@.supplier_id
    }

    open spec fn touched(&self) -> Option<Timestamp> {
        self@.updated_at
    }

    open spec fn cell_at(&self, column: SupplierColumn) -> CellView {
        self@.cell_at(column)
    }

    fn record_id(&self) -> (r: i32) {
        self.supplier_id
    }

    fn last_touched(&self) -> (r: Option<Timestamp>) {
        self.updated_at
    }

    fn cell(&self, column: SupplierColumn) -> (r: Cell<'_>) {
        match column {
            SupplierColumn::SupplierId => Cell::Int(self.supplier_id),
            SupplierColumn::Name => Cell::Text(self.name.as_str()),
            SupplierColumn::Address => Cell::of_text(&self.address),
            SupplierColumn::PhoneNumber => Cell::of_text(&self.phone_number),
            SupplierColumn::Email => Cell::of_text(&self.email),
            SupplierColumn::CreatedAt => Cell::of_time(self.created_at),
            SupplierColumn::UpdatedAt => Cell::of_time(self.updated_at),
        }
    }

    fn duplicate(&self) -> (r: Self) {
        self.clone()
    }
}

/// The filter of a supplier search. A field that is absent does not
/// constrain the search; the fields that are there must all hold.
#[derive(Debug, PartialEq, Eq)]
pub struct SupplierFilter {
    pub supplier_id: Option<i32>,
    pub name: Option<String>,
    pub address: Option<String>,
    pub phone_number: Option<String>,
    pub email: Option<String>,
    pub created_at_min: Option<Timestamp>,
    pub created_at_max: Option<Timestamp>,
    pub updated_at_min: Option<Timestamp>,
    pub updated_at_max: Option<Timestamp>,
}

/// The filter of a supplier search as mathematics sees it.
pub struct SupplierFilterView {
    pub supplier_id: Option<int>,
    pub name: Option<Seq<char>>,
    pub address: Option<Seq<char>>,
    pub phone_number: Option<Seq<char>>,
    pub email: Option<Seq<char>>,
    pub created_at_min: Option<Timestamp>,
    pub created_at_max: Option<Timestamp>,
    pub updated_at_min: Option<Timestamp>,
    pub updated_at_max: Option<Timestamp>,
}

impl View for SupplierFilter {
    type V = SupplierFilterView;

    open spec fn view(&self) -> SupplierFilterView {
        SupplierFilterView {
            supplier_id: number_of(self.supplier_id),
            name: text_of(self.name),
            address: text_of(self.address),
            phone_number: text_of(self.phone_number),
            email: text_of(self.email),
            created_at_min: self.created_at_min,
            created_at_max: self.created_at_max,
            updated_at_min: self.updated_at_min,
            updated_at_max: self.updated_at_max,
        }
    }
}

impl SupplierFilterView {
    /// The conditions that the filter amounts to: one for each field that is
    /// there, in the order of the fields.
    pub open spec fn conditions(self) -> Seq<ConditionView<SupplierColumn>> {
        when_equals(SupplierColumn::SupplierId, self.supplier_id) + when_contains(
            SupplierColumn::Name,
            self.name,
        ) + when_contains(SupplierColumn::Address, self.address) + when_contains(
            SupplierColumn::PhoneNumber,
            self.phone_number,
        ) + when_contains(SupplierColumn::Email, self.email) + when_at_least(
            SupplierColumn::CreatedAt,
            self.created_at_min,
        ) + when_at_most(SupplierColumn::CreatedAt, self.created_at_max) + when_at_least(
            SupplierColumn::UpdatedAt,
            self.updated_at_min,
        ) + when_at_most(SupplierColumn::UpdatedAt, self.updated_at_max)
    }

    /// Whether the filter lets `supplier` through: each field that is there
    /// must hold of the supplier, and a field of the supplier that is empty
    /// holds of nothing.
    pub open spec fn admits(self, supplier: SupplierView) -> bool {
        &&& self.supplier_id matches Some(id) ==> supplier.supplier_id == id
        &&& self.name matches Some(part) ==> contains_text(supplier.name, part)
        &&& self.address matches Some(part) ==> holds_part(supplier.address, part)
        &&& self.phone_number matches Some(part) ==> holds_part(supplier.phone_number, part)
        &&& self.email matches Some(part) ==> holds_part(supplier.email, part)
        &&& self.created_at_min matches Some(bound) ==> is_at_least(supplier.created_at, bound)
        &&& self.created_at_max matches Some(bound) ==> is_at_most(supplier.created_at, bound)
        &&& self.updated_at_min matches Some(bound) ==> is_at_least(supplier.updated_at, bound)
        &&& self.updated_at_max matches Some(bound) ==> is_at_most(supplier.updated_at, bound)
    }

    /// Whether `refined` constrains at least what this filter does: every
    /// field that is there stands in `refined` with the same value, and
    /// `refined` may hold more.
    pub open spec fn is_refined_by(self, refined: SupplierFilterView) -> bool {
        &&& self.supplier_id is Some ==> refined.supplier_id == self.supplier_id
        &&& self.name is Some ==> refined.name == self.name
        &&& self.address is Some ==> refined.address == self.address
        &&& self.phone_number is Some ==> refined.phone_number == self.phone_number
        &&& self.email is Some ==> refined.email == self.email
        &&& self.created_at_min is Some ==> refined.created_at_min == self.created_at_min
        &&& self.created_at_max is Some ==> refined.created_at_max == self.created_at_max
        &&& self.updated_at_min is Some ==> refined.updated_at_min == self.updated_at_min
        &&& self.updated_at_max is Some ==> refined.updated_at_max == self.updated_at_max
    }
}

impl SupplierFilter {
    /// The conditions that the filter amounts to.
    pub fn conditions(&self) -> (r: Vec<Condition<SupplierColumn>>)
        ensures
            condition_views(r@) == self@.conditions(),
    {
        let mut out: Vec<Condition<SupplierColumn>> = Vec::new();
        assert(condition_views(out@) =~= Seq::empty());
        push_equals(&mut out, SupplierColumn::SupplierId, &self.supplier_id);
        push_contains(&mut out, SupplierColumn::Name, &self.name);
        push_contains(&mut out, SupplierColumn::Address, &self.address);
        push_contains(&mut out, SupplierColumn::PhoneNumber, &self.phone_number);
        push_contains(&mut out, SupplierColumn::Email, &self.email);
        push_at_least(&mut out, SupplierColumn::CreatedAt, &self.created_at_min);
        push_at_most(&mut out, SupplierColumn::CreatedAt, &self.created_at_max);
        push_at_least(&mut out, SupplierColumn::UpdatedAt, &self.updated_at_min);
        push_at_most(&mut out, SupplierColumn::UpdatedAt, &self.updated_at_max);
        assert(condition_views(out@) =~= self@.conditions());
        out
    }
}

/// One condition on the supplier table in the form in which a storage takes it:
/// the column and the test in one, a text test with its pattern made.
#[derive(Debug, PartialEq, Eq)]
pub enum SupplierPredicate {
    SupplierIdIs(i32),
    NameLike(String),
    AddressLike(String),
    PhoneNumberLike(String),
    EmailLike(String),
    CreatedNotBefore(Timestamp),
    CreatedNotAfter(Timestamp),
    UpdatedNotBefore(Timestamp),
    UpdatedNotAfter(Timestamp),
    /// A test that nothing in its column can pass.
    Nothing,
}

/// A condition in the form of the storage, as mathematics sees it.
pub enum SupplierPredicateView {
    SupplierIdIs(int),
    NameLike(Seq<char>),
    AddressLike(Seq<char>),
    PhoneNumberLike(Seq<char>),
    EmailLike(Seq<char>),
    CreatedNotBefore(Timestamp),
    CreatedNotAfter(Timestamp),
    UpdatedNotBefore(Timestamp),
    UpdatedNotAfter(Timestamp),
    Nothing,
}

impl View for SupplierPredicate {
    type V = SupplierPredicateView;

    open spec fn view(&self) -> SupplierPredicateView {
        match *self {
            SupplierPredicate::SupplierIdIs(v) => SupplierPredicateView::SupplierIdIs(v as int),
            SupplierPredicate::NameLike(v) => SupplierPredicateView::NameLike(v@),
            SupplierPredicate::AddressLike(v) => SupplierPredicateView::AddressLike(v@),
            SupplierPredicate::PhoneNumberLike(v) => SupplierPredicateView::PhoneNumberLike(v@),
            SupplierPredicate::EmailLike(v) => SupplierPredicateView::EmailLike(v@),
            SupplierPredicate::CreatedNotBefore(v) => SupplierPredicateView::CreatedNotBefore(v),
            SupplierPredicate::CreatedNotAfter(v) => SupplierPredicateView::CreatedNotAfter(v),
            SupplierPredicate::UpdatedNotBefore(v) => SupplierPredicateView::UpdatedNotBefore(v),
            SupplierPredicate::UpdatedNotAfter(v) => SupplierPredicateView::UpdatedNotAfter(v),
            SupplierPredicate::Nothing => SupplierPredicateView::Nothing,
        }
    }
}

impl SupplierPredicateView {
    /// The form that the storage takes `condition` in. A part of a text
    /// becomes the pattern that finds it; a test that does not go with
    /// its column becomes the test that nothing passes.
    pub open spec fn of(condition: ConditionView<SupplierColumn>) -> SupplierPredicateView {
        match (condition.column, condition.test) {
            (SupplierColumn::SupplierId, TestView::Equals(v)) => SupplierPredicateView::SupplierIdIs(v),
            (SupplierColumn::Name, TestView::Contains(v)) => SupplierPredicateView::NameLike(contains_pattern_text(v)),
            (SupplierColumn::Address, TestView::Contains(v)) => SupplierPredicateView::AddressLike(contains_pattern_text(v)),
            (SupplierColumn::PhoneNumber, TestView::Contains(v)) => SupplierPredicateView::PhoneNumberLike(contains_pattern_text(v)),
            (SupplierColumn::Email, TestView::Contains(v)) => SupplierPredicateView::EmailLike(contains_pattern_text(v)),
            (SupplierColumn::CreatedAt, TestView::AtLeast(v)) => SupplierPredicateView::CreatedNotBefore(v),
            (SupplierColumn::CreatedAt, TestView::AtMost(v)) => SupplierPredicateView::CreatedNotAfter(v),
            (SupplierColumn::UpdatedAt, TestView::AtLeast(v)) => SupplierPredicateView::UpdatedNotBefore(v),
            (SupplierColumn::UpdatedAt, TestView::AtMost(v)) => SupplierPredicateView::UpdatedNotAfter(v),
            _ => SupplierPredicateView::Nothing,
        }
    }

    /// Whether the condition holds of `supplier`, read the way a storage reads
    /// it: numbers and times by their order, texts by their pattern, and an
    /// empty column holds of nothing.
    pub open spec fn holds(self, supplier: SupplierView) -> bool {
        match self {
            SupplierPredicateView::SupplierIdIs(v) => supplier.supplier_id == v,
            SupplierPredicateView::NameLike(v) => like_matches(v, supplier.name),
            SupplierPredicateView::AddressLike(v) => supplier.address matches Some(text) && like_matches(v, text),
            SupplierPredicateView::PhoneNumberLike(v) => supplier.phone_number matches Some(text) && like_matches(v, text),
            SupplierPredicateView::EmailLike(v) => supplier.email matches Some(text) && like_matches(v, text),
            SupplierPredicateView::CreatedNotBefore(v) => is_at_least(supplier.created_at, v),
            SupplierPredicateView::CreatedNotAfter(v) => is_at_most(supplier.created_at, v),
            SupplierPredicateView::UpdatedNotBefore(v) => is_at_least(supplier.updated_at, v),
            SupplierPredicateView::UpdatedNotAfter(v) => is_at_most(supplier.updated_at, v),
            SupplierPredicateView::Nothing => false,
        }
    }
}

impl SupplierPredicate {
    /// The form that the storage takes `condition` in.
    pub fn of(condition: &Condition<SupplierColumn>) -> (r: Self)
        ensures
            r@ == SupplierPredicateView::of(condition@),
    {
        match (condition.column, &condition.test) {
            (SupplierColumn::SupplierId, Test::Equals(v)) => SupplierPredicate::SupplierIdIs(*v),
            (SupplierColumn::Name, Test::Contains(part)) => {
                SupplierPredicate::NameLike(contains_pattern(part.as_str()))
            },
            (SupplierColumn::Address, Test::Contains(part)) => {
                SupplierPredicate::AddressLike(contains_pattern(part.as_str()))
            },
            (SupplierColumn::PhoneNumber, Test::Contains(part)) => {
                SupplierPredicate::PhoneNumberLike(contains_pattern(part.as_str()))
            },
            (SupplierColumn::Email, Test::Contains(part)) => {
                SupplierPredicate::EmailLike(contains_pattern(part.as_str()))
            },
            (SupplierColumn::CreatedAt, Test::AtLeast(v)) => SupplierPredicate::CreatedNotBefore(*v),
            (SupplierColumn::CreatedAt, Test::AtMost(v)) => SupplierPredicate::CreatedNotAfter(*v),
            (SupplierColumn::UpdatedAt, Test::AtLeast(v)) => SupplierPredicate::UpdatedNotBefore(*v),
            (SupplierColumn::UpdatedAt, Test::AtMost(v)) => SupplierPredicate::UpdatedNotAfter(*v),
            _ => SupplierPredicate::Nothing,
        }
    }
}

/// The form in which the storage takes a condition holds of exactly the
/// suppliers that the condition itself holds of: the pattern finds the part,
/// whatever characters the part is made of, and a test that does not go
/// with its column holds of none.
pub proof fn lemma_supplier_predicate(condition: ConditionView<SupplierColumn>, supplier: SupplierView)
    ensures
        SupplierPredicateView::of(condition).holds(supplier) <==> passes(
            condition.test,
            supplier.cell_at(condition.column),
        ),
{
    match (condition.test, supplier.cell_at(condition.column)) {
        (TestView::Contains(part), CellView::Text(text)) => {
            lemma_contains_pattern(part, text);
        },
        _ => {},
    }
}

/// A supplier meets the conditions of a filter exactly when the filter lets
/// it through.
pub proof fn lemma_supplier_filter_meaning(filter: SupplierFilterView, supplier: Supplier)
    ensures
        satisfies(supplier, filter.conditions()) <==> filter.admits(supplier@),
{
    let c1 = when_equals(SupplierColumn::SupplierId, filter.supplier_id);
    let c2 = c1 + when_contains(SupplierColumn::Name, filter.name);
    let c3 = c2 + when_contains(SupplierColumn::Address, filter.address);
    let c4 = c3 + when_contains(SupplierColumn::PhoneNumber, filter.phone_number);
    let c5 = c4 + when_contains(SupplierColumn::Email, filter.email);
    let c6 = c5 + when_at_least(SupplierColumn::CreatedAt, filter.created_at_min);
    let c7 = c6 + when_at_most(SupplierColumn::CreatedAt, filter.created_at_max);
    let c8 = c7 + when_at_least(SupplierColumn::UpdatedAt, filter.updated_at_min);
    lemma_satisfies_both(supplier, c1, when_contains(SupplierColumn::Name, filter.name));
    lemma_satisfies_both(supplier, c2, when_contains(SupplierColumn::Address, filter.address));
    lemma_satisfies_both(
        supplier,
        c3,
        when_contains(SupplierColumn::PhoneNumber, filter.phone_number),
    );
    lemma_satisfies_both(supplier, c4, when_contains(SupplierColumn::Email, filter.email));
    lemma_satisfies_both(
        supplier,
        c5,
        when_at_least(SupplierColumn::CreatedAt, filter.created_at_min),
    );
    lemma_satisfies_both(
        supplier,
        c6,
        when_at_most(SupplierColumn::CreatedAt, filter.created_at_max),
    );
    lemma_satisfies_both(
        supplier,
        c7,
        when_at_least(SupplierColumn::UpdatedAt, filter.updated_at_min),
    );
    lemma_satisfies_both(
        supplier,
        c8,
        when_at_most(SupplierColumn::UpdatedAt, filter.updated_at_max),
    );
    lemma_satisfies_field(supplier, SupplierColumn::SupplierId);
    lemma_satisfies_field(supplier, SupplierColumn::Name);
    lemma_satisfies_field(supplier, SupplierColumn::Address);
    lemma_satisfies_field(supplier, SupplierColumn::PhoneNumber);
    lemma_satisfies_field(supplier, SupplierColumn::Email);
    lemma_satisfies_field(supplier, SupplierColumn::CreatedAt);
    lemma_satisfies_field(supplier, SupplierColumn::UpdatedAt);
}

/// A filter with one more field, or with several more, never finds more
/// suppliers than the filter without them.
pub proof fn lemma_refined_supplier_filter_finds_fewer(
    rows: Seq<Supplier>,
    filter: SupplierFilterView,
    refined: SupplierFilterView,
)
    requires
        filter.is_refined_by(refined),
    ensures
        forall|supplier: Supplier| #[trigger]
            satisfies(supplier, refined.conditions()) ==> satisfies(supplier, filter.conditions()),
        matching(rows, refined.conditions()).len() <= matching(rows, filter.conditions()).len(),
{
    assert forall|supplier: Supplier| #[trigger]
        satisfies(supplier, refined.conditions()) implies satisfies(
        supplier,
        filter.conditions(),
    ) by {
        lemma_supplier_filter_meaning(refined, supplier);
        lemma_supplier_filter_meaning(filter, supplier);
    }
    lemma_narrower_finds_fewer(rows, filter.conditions(), refined.conditions());
}

/// The mapper of the suppliers.
pub struct SupplierMapper {}

impl MapperCRUD for SupplierMapper {
    type Item = Supplier;

    type PostItem = PostSupplier;

    type PatchItem = PatchSupplier;

    type Filter = SupplierFilter;

    open spec fn is_created(item: Supplier, post: PostSupplier, id: int) -> bool {
        item@ == SupplierView::created(post@, id)
    }

    open spec fn is_revised(
        item: Supplier,
        previous: Supplier,
        patch: PatchSupplier,
        now: Timestamp,
    ) -> bool {
        item@ == previous@.revised(patch@, now)
    }

    open spec fn filter_conditions(filter: SupplierFilter) -> Seq<ConditionView<SupplierColumn>> {
        filter@.conditions()
    }

    fn create(post: &PostSupplier, id: i32) -> (r: Supplier) {
        let r = Supplier {
            supplier_id: id,
            name: post.name.clone(),
            address: post.address.clone(),
            phone_number: post.phone_number.clone(),
            email: post.email.clone(),
            created_at: post.created_at,
            updated_at: post.updated_at,
        };
        assert(r.key() == id);
        r
    }

    fn revise(previous: &Supplier, patch: &PatchSupplier, now: Timestamp) -> (r: Supplier) {
        let changes = patch.changes(now);
        let r = Supplier {
            supplier_id: previous.supplier_id,
            name: changes.name,
            address: changes.address,
            phone_number: changes.phone_number,
            email: changes.email,
            created_at: previous.created_at,
            updated_at: changes.updated_at,
        };
        assert(r.key() == previous.key() && r.touched() == Some(now));
        r
    }

    fn conditions(filter: &SupplierFilter) -> (r: Vec<Condition<SupplierColumn>>) {
        filter.conditions()
    }
}

} // verus!
