//! What every listing hands back: one page of rows and where it stands.

use crate::pagination::Pagination;
use vstd::prelude::*;

verus! {

/// A page of data together with its page descriptor.
#[derive(Debug, PartialEq, Eq)]
pub struct Data<T> {
    pub data: T,
    pub pagination: Pagination,
}

impl<T> Data<T> {
    pub fn new(data: T, pagination: Pagination) -> (r: Self)
        ensures
            r.data == data,
            r.pagination == pagination,
    {
        Data { data, pagination }
    }

    pub fn data(&self) -> (r: &T)
        ensures
            *r == self.data,
    {
        &self.data
    }

    pub fn pagination(&self) -> (r: &Pagination)
        ensures
            *r == self.pagination,
    {
        &self.pagination
    }
}

} // verus!
