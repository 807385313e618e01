//! Paginated, filtered data access for the resources of a small back office:
//! the page arithmetic, the filter predicates and the record shapes, with
//! their contracts proved.

pub mod decimal;
pub mod employee;
pub mod error;
pub mod mapper;
pub mod pagination;
pub mod query;
pub mod record;
pub mod request;
pub mod response;
pub mod supplier;
pub mod table;
pub mod task;
pub mod text;
pub mod time;
pub mod user;
