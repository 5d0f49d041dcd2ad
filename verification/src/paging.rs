//! Paging of admin listings.
use vstd::prelude::*;

verus! {

/// The page number used for a request: at least 1.
pub open spec fn page_used(page: i64) -> i64 {
    if page < 1 {
        1
    } else {
        page
    }
}

/// The page size used for a request: between 1 and 100.
pub open spec fn limit_used(limit: i64) -> i64 {
    if limit < 1 {
        1
    } else if limit > 100 {
        100
    } else {
        limit
    }
}

/// The page and page size a listing request is served with: the page is raised to 1 and
/// the size kept within 1..=100.
pub fn page_and_limit(page: i64, limit: i64) -> (r: (i64, i64))
    ensures
        r.0 == page_used(page),
        r.1 == limit_used(limit),
        r.0 >= 1,
        1 <= r.1 <= 100,
{
    let page: i64 = if page < 1 {
        1
    } else {
        page
    };
    let limit: i64 = if limit < 1 {
        1
    } else if limit > 100 {
        100
    } else {
        limit
    };
    (page, limit)
}

/// Integer division rounded toward zero, as `/` on machine integers divides.
pub open spec fn div_toward_zero(a: int, b: int) -> int {
    if a >= 0 {
        a / b
    } else {
        -((-a) / b)
    }
}

/// The number of pages of `limit` rows that `total` rows fill: the quotient rounded up,
/// computed as `(total + limit - 1) / limit`.
pub fn total_pages(total: i64, limit: i64) -> (r: i64)
    requires
        1 <= limit,
        total + limit <= i64::MAX,
    ensures
        r as int == div_toward_zero(total + limit - 1, limit as int),
        total >= 0 ==> r * limit >= total && ((r - 1) * limit < total || r == 0),
{
    let r = (total + limit - 1) / limit;
    if total >= 0 {
        assert(r * limit >= total && ((r - 1) * limit < total || r == 0)) by (nonlinear_arith)
            requires
                r as int == (total + limit - 1) / (limit as int),
                0 <= total,
                1 <= limit,
        ;
    }
    r
}

/// The number of rows that come before page `page` (counted from 1) of `limit` rows.
pub fn page_offset(page: i64, limit: i64) -> (r: i64)
    requires
        i64::MIN <= (page - 1) * limit <= i64::MAX,
        page >= i64::MIN + 1,
    ensures
        r == (page - 1) * limit,
{
    (page - 1) * limit
}

} // verus!
