//! Page and page-size handling shared by the listing endpoints.

use vstd::prelude::*;

verus! {

/// The page number used when a request names none.
pub fn default_page() -> (res: i64)
    ensures
        res == 1,
{
    1
}

/// The page size used when a request names none.
pub fn default_per_page() -> (res: i64)
    ensures
        res == 20,
{
    20
}

/// The page size actually used: `per_page` clamped to `1..=100`.
pub open spec fn clamped_per_page(per_page: int) -> int {
    if per_page < 1 {
        1
    } else if per_page > 100 {
        100
    } else {
        per_page
    }
}

/// The page actually used: at least 1.
pub open spec fn effective_page(page: int) -> int {
    if page < 1 {
        1
    } else {
        page
    }
}

/// The number of rows before the first row of the effective page.
pub open spec fn page_offset(page: int, per_page: int) -> int {
    (effective_page(page) - 1) * clamped_per_page(per_page)
}

/// Normalises a requested page and page size and computes the row offset of
/// that page: `(page, per_page, offset)`. The offset must fit in an `i64`
/// (the computation overflows otherwise).
pub fn paginate(page: i64, per_page: i64) -> (res: (i64, i64, i64))
    requires
        page_offset(page as int, per_page as int) <= i64::MAX,
    ensures
        res.0 == effective_page(page as int),
        res.1 == clamped_per_page(per_page as int),
        res.2 == page_offset(page as int, per_page as int),
        res.0 >= 1,
        1 <= res.1 <= 100,
        res.2 >= 0,
        res.2 % res.1 == 0,
        res.2 == (res.0 - 1) * res.1,
        1 <= per_page <= 100 ==> res.1 == per_page,
        per_page < 1 ==> res.1 == 1,
        per_page > 100 ==> res.1 == 100,
        page >= 1 ==> res.0 == page,
        page < 1 ==> res.0 == 1,
{
    let per_page: i64 = if per_page < 1 {
        1
    } else if per_page > 100 {
        100
    } else {
        per_page
    };
    let page: i64 = if page < 1 { 1 } else { page };
    let offset: i64 = (page - 1) * per_page;
    assert(offset >= 0) by (nonlinear_arith)
        requires
            page >= 1,
            per_page >= 1,
            offset == (page - 1) * per_page,
    ;
    assert(offset % per_page == 0) by (nonlinear_arith)
        requires
            page >= 1,
            per_page >= 1,
            offset == (page - 1) * per_page,
    ;
    (page, per_page, offset)
}

/// A page size is clamped to `1..=100`: a size already in that range is
/// used as asked, a smaller one becomes 1 and a larger one 100; a page
/// number of at least 1 is used as asked, a smaller one becomes 1.
pub proof fn requested_page_is_clamped(page: int, per_page: int)
    ensures
        1 <= per_page <= 100 ==> clamped_per_page(per_page) == per_page,
        per_page < 1 ==> clamped_per_page(per_page) == 1,
        per_page > 100 ==> clamped_per_page(per_page) == 100,
        page >= 1 ==> effective_page(page) == page,
        page < 1 ==> effective_page(page) == 1,
        page >= 1 && 1 <= per_page <= 100 ==> page_offset(page, per_page) == (page - 1) * per_page,
{
}

/// Asking for more rows per page never gives fewer: the page size used is
/// monotone in the size asked for.
pub proof fn larger_request_larger_page(a: int, b: int)
    requires
        a <= b,
    ensures
        clamped_per_page(a) <= clamped_per_page(b),
{
}

/// Normalising is idempotent: asking again for the page and page size that
/// were used gives the same page, page size and offset.
pub proof fn normalised_request_is_kept(page: int, per_page: int)
    ensures
        effective_page(effective_page(page)) == effective_page(page),
        clamped_per_page(clamped_per_page(per_page)) == clamped_per_page(per_page),
        page_offset(effective_page(page), clamped_per_page(per_page)) == page_offset(page, per_page),
{
}

/// Consecutive pages neither overlap nor leave a gap: the page after a page
/// starts one page size further on.
pub proof fn next_page_follows(page: int, per_page: int)
    requires
        page >= 1,
    ensures
        page_offset(page + 1, per_page) == page_offset(page, per_page) + clamped_per_page(per_page),
{
    let c = clamped_per_page(per_page);
    assert(page * c == (page - 1) * c + c) by (nonlinear_arith);
}

} // verus!
