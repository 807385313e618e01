//! The ways in which a data-access operation fails.

use diesel::result::DatabaseErrorKind;
use vstd::prelude::*;

verus! {

/// Why a data-access operation failed.
#[derive(Clone, Copy, Debug, PartialEq, Eq, Structural)]
pub enum MapperError {
    /// No row carries the identifier that was asked for.
    NotFound,
    /// The storage refused the row: a uniqueness, foreign-key or type rule.
    ConstraintViolation,
    /// Any other failure of the storage, a lost connection included.
    QueryError,
    /// The page size is zero.
    DivisionByZero,
    /// The page size or the offset is negative.
    InvalidPagination,
}

/// What a storage engine reports when a statement fails, as far as the
/// callers of this library tell failures apart.
#[derive(Clone, Copy, Debug, PartialEq, Eq, Structural)]
pub enum StorageFailure {
    /// A statement that had to find a row found none.
    NoRow,
    UniqueViolation,
    ForeignKeyViolation,
    RestrictViolation,
    NotNullViolation,
    CheckViolation,
    ExclusionViolation,
    /// The connection to the storage was lost.
    ClosedConnection,
    /// Anything else.
    Other,
}

/// `diesel::result::Error`, the failure that `diesel` reports. It is carried
/// through as it is; nothing is known of what it holds.
#[verifier::external_type_specification]
#[verifier::external_body]
pub struct ExDieselError(diesel::result::Error);

impl MapperError {
    /// The error that a storage failure surfaces as: a missing row as
    /// `NotFound`, a rule of the schema that the row broke as
    /// `ConstraintViolation`, everything else as `QueryError`.
    pub open spec fn of_failure(failure: StorageFailure) -> MapperError {
        match failure {
            StorageFailure::NoRow => MapperError::NotFound,
            StorageFailure::UniqueViolation => MapperError::ConstraintViolation,
            StorageFailure::ForeignKeyViolation => MapperError::ConstraintViolation,
            StorageFailure::RestrictViolation => MapperError::ConstraintViolation,
            StorageFailure::NotNullViolation => MapperError::ConstraintViolation,
            StorageFailure::CheckViolation => MapperError::ConstraintViolation,
            StorageFailure::ExclusionViolation => MapperError::ConstraintViolation,
            StorageFailure::ClosedConnection => MapperError::QueryError,
            StorageFailure::Other => MapperError::QueryError,
        }
    }

    /// The error that a storage failure surfaces as.
    pub fn from_failure(failure: StorageFailure) -> (r: MapperError)
        ensures
            r == MapperError::of_failure(failure),
    {
        match failure {
            StorageFailure::NoRow => MapperError::NotFound,
            StorageFailure::UniqueViolation
            | StorageFailure::ForeignKeyViolation
            | StorageFailure::RestrictViolation
            | StorageFailure::NotNullViolation
            | StorageFailure::CheckViolation
            | StorageFailure::ExclusionViolation => MapperError::ConstraintViolation,
            StorageFailure::ClosedConnection | StorageFailure::Other => MapperError::QueryError,
        }
    }

    /// The error that a failure reported by `diesel` surfaces as: the error
    /// of the kind of failure that it is.
    pub fn from_diesel(error: &diesel::result::Error) -> (r: MapperError)
        ensures
            r == MapperError::of_failure(failure_kind(*error)),
    {
        let failure = failure_of(error);
        MapperError::from_failure(failure)
    }

    /// What the storage holds, or the refusal where it cannot hold the value:
    /// a value that does not fit the type of its column breaks a rule of the
    /// schema.
    pub fn storable<T>(held: Option<T>) -> (r: Result<T, MapperError>)
        ensures
            r == match held {
                Some(value) => Ok::<T, MapperError>(value),
                None => Err::<T, MapperError>(MapperError::ConstraintViolation),
            },
    {
        match held {
            Some(value) => Ok(value),
            None => Err(MapperError::ConstraintViolation),
        }
    }
}

/// The kind of failure that an error of `diesel` is: what `failure_of` tells
/// of it.
pub uninterp spec fn failure_kind(error: diesel::result::Error) -> StorageFailure;

/// Tells the variants of `diesel::result::Error` apart: `NotFound`, a
/// `DatabaseError` of one of the kinds listed, or anything else. The kind it
/// tells depends on the error alone, and the contract gives it its name.
#[verifier::external_body]
fn failure_of(error: &diesel::result::Error) -> (r: StorageFailure)
    ensures
        r == failure_kind(*error),
{
    match error {
        diesel::result::Error::NotFound => StorageFailure::NoRow,
        diesel::result::Error::DatabaseError(kind, _) => match kind {
            DatabaseErrorKind::UniqueViolation => StorageFailure::UniqueViolation,
            DatabaseErrorKind::ForeignKeyViolation => StorageFailure::ForeignKeyViolation,
            DatabaseErrorKind::RestrictViolation => StorageFailure::RestrictViolation,
            DatabaseErrorKind::NotNullViolation => StorageFailure::NotNullViolation,
            DatabaseErrorKind::CheckViolation => StorageFailure::CheckViolation,
            DatabaseErrorKind::ExclusionViolation => StorageFailure::ExclusionViolation,
            DatabaseErrorKind::ClosedConnection => StorageFailure::ClosedConnection,
            _ => StorageFailure::Other,
        },
        _ => StorageFailure::Other,
    }
}

} // verus!
