//! What every read takes in: the page asked for and, if any, a filter.

use crate::pagination::{PaginationParam, DEFAULT_LIMIT, DEFAULT_OFFSET};
use vstd::prelude::*;

verus! {

/// The input of a read: a page request and an optional filter. Without a
/// filter every row is wanted.
#[derive(Debug, PartialEq, Eq)]
pub struct RequestParam<P, F> {
    pub pagination: P,
    pub filter: Option<F>,
}

impl<P, F> RequestParam<P, F> {
    pub fn new(pagination: P, filter: Option<F>) -> (r: Self)
        ensures
            r.pagination == pagination,
            r.filter == filter,
    {
        RequestParam { pagination, filter }
    }
}

impl<F> RequestParam<PaginationParam, F> {
    /// The request that a listing makes from the limit and the offset of its
    /// query string: each one that is absent takes its default, and no filter
    /// applies.
    pub fn listing(limit: Option<i32>, offset: Option<i32>) -> (r: Self)
        ensures
            r.pagination == (PaginationParam { limit, offset }).with_defaults(),
            r.filter is None,
    {
        RequestParam { pagination: PaginationParam::new(limit, offset).or_default(), filter: None }
    }

    /// The request that a search makes from its body: the body where there is
    /// one, else the first page at the default size without a filter.
    pub fn or_first_page(body: Option<Self>) -> (r: Self)
        ensures
            match body {
                Some(param) => r == param,
                None => r.pagination == PaginationParam::first_page() && r.filter is None,
            },
    {
        match body {
            Some(param) => param,
            None => RequestParam { pagination: PaginationParam::default(), filter: None },
        }
    }
}

impl<F> Default for RequestParam<PaginationParam, F> {
    fn default() -> (r: Self)
        ensures
            r.pagination.limit == Some(DEFAULT_LIMIT),
            r.pagination.offset == Some(DEFAULT_OFFSET),
            r.filter is None,
    {
        RequestParam { pagination: PaginationParam::default(), filter: None }
    }
}

} // verus!
