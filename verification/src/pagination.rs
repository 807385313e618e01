//! The page arithmetic: from a limit, an offset and a row count to the page
//! descriptor that goes out with every listing.

use crate::decimal::{decimal_text, push_decimal};
use crate::error::MapperError;
use crate::record::text_of;
use vstd::prelude::*;
use vstd::string::StringExecFns;

verus! {

/// The page size used when a request names none.
pub const DEFAULT_LIMIT: i32 = 10;

/// The offset used when a request names none.
pub const DEFAULT_OFFSET: i32 = 0;

/// The page a request asks for. A field left out takes its default.
#[derive(Clone, Copy, Debug, PartialEq, Eq, Structural)]
pub struct PaginationParam {
    pub limit: Option<i32>,
    pub offset: Option<i32>,
}

impl PaginationParam {
    /// The page size asked for: `limit`, or the default where it is absent.
    pub open spec fn limit_or_default(self) -> int {
        match self.limit {
            Some(limit) => limit as int,
            None => DEFAULT_LIMIT as int,
        }
    }

    /// The offset asked for: `offset`, or the default where it is absent.
    pub open spec fn offset_or_default(self) -> int {
        match self.offset {
            Some(offset) => offset as int,
            None => DEFAULT_OFFSET as int,
        }
    }

    /// The first page at the default size, both fields written out.
    pub open spec fn first_page() -> PaginationParam {
        PaginationParam { limit: Some(DEFAULT_LIMIT), offset: Some(DEFAULT_OFFSET) }
    }

    /// The same request with every absent field replaced by its default.
    pub open spec fn with_defaults(self) -> PaginationParam {
        PaginationParam {
            limit: Some(self.limit_or_default() as i32),
            offset: Some(self.offset_or_default() as i32),
        }
    }

    pub fn new(limit: Option<i32>, offset: Option<i32>) -> (r: Self)
        ensures
            r == (PaginationParam { limit, offset }),
    {
        PaginationParam { limit, offset }
    }

    /// The first page at the default size, both fields written out.
    pub fn demo() -> (r: Self)
        ensures
            r == Self::first_page(),
    {
        PaginationParam { limit: Some(DEFAULT_LIMIT), offset: Some(DEFAULT_OFFSET) }
    }

    /// The same request with every absent field replaced by its default.
    pub fn or_default(&self) -> (r: Self)
        ensures
            r == self.with_defaults(),
    {
        PaginationParam { limit: Some(self.page_size()), offset: Some(self.start()) }
    }

    /// The page size asked for.
    pub fn page_size(&self) -> (r: i32)
        ensures
            r == self.limit_or_default(),
    {
        match self.limit {
            Some(limit) => limit,
            None => DEFAULT_LIMIT,
        }
    }

    /// The offset asked for.
    pub fn start(&self) -> (r: i32)
        ensures
            r == self.offset_or_default(),
    {
        match self.offset {
            Some(offset) => offset,
            None => DEFAULT_OFFSET,
        }
    }

    /// Whether the request describes a page: `Ok` where it does, else the
    /// error that says why not.
    pub fn validate(&self) -> (r: Result<(), MapperError>)
        ensures
            r == match page_error(self.limit_or_default(), self.offset_or_default()) {
                Some(e) => Err::<(), MapperError>(e),
                None => Ok::<(), MapperError>(()),
            },
    {
        let limit = self.page_size();
        let offset = self.start();
        if limit == 0 {
            Err(MapperError::DivisionByZero)
        } else if limit < 0 || offset < 0 {
            Err(MapperError::InvalidPagination)
        } else {
            Ok(())
        }
    }
}

impl Default for PaginationParam {
    fn default() -> (r: Self)
        ensures
            r.limit == Some(DEFAULT_LIMIT),
            r.offset == Some(DEFAULT_OFFSET),
    {
        PaginationParam::demo()
    }
}

/// Why a limit and an offset describe no page, if they do not.
pub open spec fn page_error(limit: int, offset: int) -> Option<MapperError> {
    if limit == 0 {
        Some(MapperError::DivisionByZero)
    } else if limit < 0 || offset < 0 {
        Some(MapperError::InvalidPagination)
    } else {
        None
    }
}

/// The one-based number of the page that starts at `offset`.
pub open spec fn page_number(limit: int, offset: int) -> int {
    offset / limit + 1
}

/// The number of pages of `limit` rows that `total_count` rows fill.
pub open spec fn page_count(limit: int, total_count: int) -> int {
    (total_count + limit - 1) / limit
}

/// The offset at which the page after the one at `offset` starts.
pub open spec fn next_offset(limit: int, offset: int) -> int {
    page_number(limit, offset) * limit
}

/// The offset at which the page before the one at `offset` starts. It is
/// negative on the first page: the value is not clamped.
pub open spec fn previous_offset(limit: int, offset: int) -> int {
    (page_number(limit, offset) - 2) * limit
}

/// The query-string fragment that asks for `limit` rows from `offset` on.
pub open spec fn token_text(limit: int, offset: int) -> Seq<char> {
    seq!['?', 'l', 'i', 'm', 'i', 't', '='] + decimal_text(limit) + seq![
        '&',
        'o',
        'f',
        'f',
        's',
        'e',
        't',
        '=',
    ] + decimal_text(offset)
}

/// Where a listing stands among its pages.
#[derive(Debug, PartialEq, Eq)]
pub struct Pagination {
    pub page: u64,
    pub per_page: u64,
    pub total_pages: u64,
    pub total_count: u64,
    pub next: Option<String>,
    pub previous: Option<String>,
}

/// A page descriptor as mathematics sees it.
pub struct PaginationView {
    pub page: int,
    pub per_page: int,
    pub total_pages: int,
    pub total_count: int,
    pub next: Option<Seq<char>>,
    pub previous: Option<Seq<char>>,
}

impl View for Pagination {
    type V = PaginationView;

    open spec fn view(&self) -> PaginationView {
        PaginationView {
            page: self.page as int,
            per_page: self.per_page as int,
            total_pages: self.total_pages as int,
            total_count: self.total_count as int,
            next: text_of(self.next),
            previous: text_of(self.previous),
        }
    }
}

/// The descriptor of the page of `limit` rows at `offset`, out of
/// `total_count` rows. Both tokens are always there, also where they point
/// before the first row or past the last.
pub open spec fn page_descriptor(limit: int, offset: int, total_count: int) -> PaginationView {
    PaginationView {
        page: page_number(limit, offset),
        per_page: limit,
        total_pages: page_count(limit, total_count),
        total_count,
        next: Some(token_text(limit, next_offset(limit, offset))),
        previous: Some(token_text(limit, previous_offset(limit, offset))),
    }
}

impl Clone for Pagination {
    fn clone(&self) -> (r: Self)
        ensures
            r == *self,
    {
        Pagination {
            page: self.page,
            per_page: self.per_page,
            total_pages: self.total_pages,
            total_count: self.total_count,
            next: self.next.clone(),
            previous: self.previous.clone(),
        }
    }
}

impl Pagination {
    pub fn new(
        page: u64,
        per_page: u64,
        total_pages: u64,
        total_count: u64,
        next: Option<String>,
        previous: Option<String>,
    ) -> (r: Self)
        ensures
            r.page == page,
            r.per_page == per_page,
            r.total_pages == total_pages,
            r.total_count == total_count,
            r.next == next,
            r.previous == previous,
    {
        Pagination { page, per_page, total_pages, total_count, next, previous }
    }
}

/// The page number brackets the offset, and the page count is the ceiling of
/// the row count over the page size.
pub proof fn lemma_page_bounds(limit: int, offset: int, total_count: int)
    requires
        limit > 0,
        offset >= 0,
        total_count >= 0,
    ensures
        page_number(limit, offset) >= 1,
        (page_number(limit, offset) - 1) * limit <= offset < page_number(limit, offset) * limit,
        page_count(limit, total_count) >= 0,
        (page_count(limit, total_count) - 1) * limit < total_count <= page_count(
            limit,
            total_count,
        ) * limit,
{
    let q = offset / limit;
    assert(q * limit <= offset < (q + 1) * limit && q >= 0) by (nonlinear_arith)
        requires
            limit > 0,
            offset >= 0,
            q == offset / limit,
    ;
    let t = total_count + limit - 1;
    let c = t / limit;
    assert(c * limit <= t < (c + 1) * limit && c >= 0 && (c - 1) * limit == c * limit - limit && (c
        + 1) * limit == c * limit + limit) by (nonlinear_arith)
        requires
            limit > 0,
            t >= 0,
            c == t / limit,
    ;
}

/// The row count that a storage reports, as the page arithmetic takes it. A
/// storage counts from zero up; a report below zero is a failure of the
/// storage.
pub fn row_count(reported: i64) -> (r: Result<u64, MapperError>)
    ensures
        r == if reported >= 0 {
            Ok::<u64, MapperError>(reported as u64)
        } else {
            Err::<u64, MapperError>(MapperError::QueryError)
        },
{
    if reported >= 0 {
        Ok(reported as u64)
    } else {
        Err(MapperError::QueryError)
    }
}

/// The query-string fragment that asks for `limit` rows from `offset` on.
pub fn page_token(limit: i64, offset: i64) -> (r: String)
    ensures
        r@ == token_text(limit as int, offset as int),
{
    proof {
        reveal_strlit("?limit=");
        reveal_strlit("&offset=");
    }
    let mut out = String::from_str("?limit=");
    push_decimal(&mut out, limit);
    out.append("&offset=");
    push_decimal(&mut out, offset);
    assert(out@ =~= token_text(limit as int, offset as int));
    out
}

/// Computes the descriptor of the page that `param` asks for, out of
/// `total_count` rows.
///
/// A page size of zero is refused as a division by zero; a negative page size
/// or offset is refused as invalid. Every other request gets its descriptor.
pub fn compute_page(param: &PaginationParam, total_count: u64) -> (r: Result<
    Pagination,
    MapperError,
>)
    ensures
        match page_error(param.limit_or_default(), param.offset_or_default()) {
            Some(e) => r == Err::<Pagination, MapperError>(e),
            None => r is Ok && r->Ok_0@ == page_descriptor(
                param.limit_or_default(),
                param.offset_or_default(),
                total_count as int,
            ),
        },
{
    let limit = param.page_size();
    let offset = param.start();
    match param.validate() {
        Err(e) => {
            return Err(e);
        },
        Ok(()) => {},
    }
    let per_page: u64 = limit as u64;
    let first: u64 = offset as u64;
    let page: u64 = first / per_page + 1;
    let full: u64 = total_count / per_page;
    assert(total_count % per_page != 0 ==> full < u64::MAX) by (nonlinear_arith)
        requires
            per_page > 0,
            full == total_count / per_page,
            total_count <= u64::MAX,
    ;
    let total_pages: u64 = if total_count % per_page == 0 {
        full
    } else {
        full + 1
    };
    proof {
        lemma_page_bounds(limit as int, offset as int, total_count as int);
        let l = limit as int;
        let n = total_count as int;
        let c = page_count(l, n);
        let f = n / l;
        let m = n % l;
        assert(n == f * l + m && 0 <= m < l && f >= 0) by (nonlinear_arith)
            requires
                l > 0,
                n >= 0,
                f == n / l,
                m == n % l,
        ;
        assert(total_pages == c) by (nonlinear_arith)
            requires
                l > 0,
                n == f * l + m,
                0 <= m < l,
                (c - 1) * l < n <= c * l,
                total_pages == if m == 0 {
                    f
                } else {
                    f + 1
                },
        ;
        assert(page * per_page <= 0x8000_0000 * 0x7fff_ffff) by (nonlinear_arith)
            requires
                1 <= page <= 0x8000_0000,
                0 < per_page <= 0x7fff_ffff,
        ;
        assert((page as int - 2) * (limit as int) >= -0x7fff_ffff) by (nonlinear_arith)
            requires
                page >= 1,
                0 < limit <= 0x7fff_ffff,
        ;
        assert((page as int - 2) * (limit as int) <= page * per_page) by (nonlinear_arith)
            requires
                page >= 1,
                per_page == limit,
                limit > 0,
        ;
    }
    let next_start: i64 = (page * per_page) as i64;
    let previous_start: i64 = (page as i64 - 2) * (limit as i64);
    let next = page_token(limit as i64, next_start);
    let previous = page_token(limit as i64, previous_start);
    Ok(Pagination::new(page, per_page, total_pages, total_count, Some(next), Some(previous)))
}

} // verus!
