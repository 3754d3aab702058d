//! Windows over listings: by page number, or by limit and offset.

use vstd::prelude::*;
use crate::error::{is_failure, database_error_message, read_or_fail, ApiError, DbError, ErrorKind};

verus! {

/// The page size where the caller names none.
pub const DEFAULT_PAGE_SIZE: i64 = 20;

/// The page size of a listing of messages where the caller names none.
pub const DEFAULT_MESSAGE_PAGE_SIZE: i64 = 50;

/// The largest page size that a caller can ask for.
pub const MAX_PAGE_SIZE: i64 = 100;

/// A window chosen by page number.
#[derive(Clone, Copy, Debug, PartialEq, Eq, Structural)]
pub struct PageWindow {
    pub page: i64,
    pub per_page: i64,
    pub offset: i64,
}

/// A window chosen by limit and offset.
#[derive(Clone, Copy, Debug, PartialEq, Eq, Structural)]
pub struct LimitWindow {
    pub limit: i64,
    pub offset: i64,
}

/// The page number asked for, the first where none is named.
pub open spec fn page_of(page: Option<i64>) -> int {
    match page {
        Some(p) => p as int,
        None => 1,
    }
}

/// The page size asked for: `default` where none is named, and never more
/// than `MAX_PAGE_SIZE`.
pub open spec fn capped_size(size: Option<i64>, default: i64) -> int {
    let asked = match size {
        Some(s) => s,
        None => default,
    };
    if asked <= MAX_PAGE_SIZE { asked as int } else { MAX_PAGE_SIZE as int }
}

/// The number of rows that stand before the page.
pub open spec fn offset_of(page: Option<i64>, per_page: Option<i64>) -> int {
    (page_of(page) - 1) * capped_size(per_page, DEFAULT_PAGE_SIZE)
}

/// The page size that `size` stands for.
pub fn cap_size(size: Option<i64>, default: i64) -> (r: i64)
    ensures
        r == capped_size(size, default),
{
    let asked: i64 = match size {
        Some(s) => s,
        None => default,
    };
    if asked <= MAX_PAGE_SIZE { asked } else { MAX_PAGE_SIZE }
}

/// The window of the page asked for, or `None` where its offset is beyond
/// what a 64-bit count of rows can hold.
pub fn page_window(page: Option<i64>, per_page: Option<i64>) -> (r: Option<PageWindow>)
    ensures
        match r {
            Some(w) => {
                &&& w.page == page_of(page)
                &&& w.per_page == capped_size(per_page, DEFAULT_PAGE_SIZE)
                &&& w.offset == offset_of(page, per_page)
            },
            None => !(i64::MIN <= offset_of(page, per_page) <= i64::MAX),
        },
{
    let p: i64 = match page {
        Some(p) => p,
        None => 1,
    };
    let size: i64 = cap_size(per_page, DEFAULT_PAGE_SIZE);
    let before: i128 = p as i128 - 1;
    let wide_size: i128 = size as i128;
    assert(-0x8000_0000_0000_0001 * 0x8000_0000_0000_0001 <= before * wide_size
        <= 0x8000_0000_0000_0001 * 0x8000_0000_0000_0001) by (nonlinear_arith)
        requires
            -0x8000_0000_0000_0001 <= before <= 0x8000_0000_0000_0001,
            -0x8000_0000_0000_0001 <= wide_size <= 0x8000_0000_0000_0001,
    ;
    let offset: i128 = before * wide_size;
    if -9_223_372_036_854_775_808i128 <= offset && offset <= 9_223_372_036_854_775_807i128 {
        Some(PageWindow { page: p, per_page: size, offset: offset as i64 })
    } else {
        None
    }
}

/// The window that `limit` and `offset` stand for: at most `MAX_PAGE_SIZE`
/// rows, `default_limit` where no limit is named, from the first row where no
/// offset is named.
pub fn limit_window(limit: Option<i64>, offset: Option<i64>, default_limit: i64) -> (w: LimitWindow)
    ensures
        w.limit == capped_size(limit, default_limit),
        w.offset == match offset {
            Some(o) => o,
            None => 0,
        },
{
    let start: i64 = match offset {
        Some(o) => o,
        None => 0,
    };
    LimitWindow { limit: cap_size(limit, default_limit), offset: start }
}

/// The rows of one window of a listing, with the number of rows in all.
#[derive(Clone, Debug, PartialEq, Eq)]
pub struct LimitPage<R> {
    pub items: Vec<R>,
    pub total: i64,
    pub limit: i64,
    pub offset: i64,
}

/// The page that was read for `window`, or the fixed internal failure where
/// the rows or their count could not be read.
pub fn limit_page<R>(window: LimitWindow, rows: Result<Vec<R>, DbError>, total: Result<i64, DbError>) -> (r: Result<
    LimitPage<R>,
    ApiError,
>)
    ensures
        match (rows, total) {
            (Ok(items), Ok(count)) => r == Ok::<LimitPage<R>, ApiError>(
                LimitPage { items, total: count, limit: window.limit, offset: window.offset },
            ),
            _ => is_failure(r, ErrorKind::Internal, database_error_message()),
        },
{
    let items = match read_or_fail(rows) {
        Ok(items) => items,
        Err(e) => {
            return Err(e);
        },
    };
    let count: i64 = match read_or_fail(total) {
        Ok(count) => count,
        Err(e) => {
            return Err(e);
        },
    };
    Ok(LimitPage { items, total: count, limit: window.limit, offset: window.offset })
}

} // verus!
