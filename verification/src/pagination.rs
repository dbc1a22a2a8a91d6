//! Splitting a listing into pages: where a page starts, and how many pages
//! there are.
use vstd::prelude::*;
use vstd::arithmetic::div_mod::{lemma_fundamental_div_mod, lemma_fundamental_div_mod_converse};
use crate::model::PaginatedResponse;

verus! {

/// The rational ceiling of `a / d`, for `d > 0`.
pub open spec fn ceil_div_pos(a: int, d: int) -> int {
    if a % d == 0 {
        a / d
    } else {
        a / d + 1
    }
}

/// The rational ceiling of `a / b`, for `b != 0`.
pub open spec fn ceil_div(a: int, b: int) -> int {
    if b > 0 {
        ceil_div_pos(a, b)
    } else {
        ceil_div_pos(-a, -b)
    }
}

/// `x` brought into the range of `i64`.
pub open spec fn clamp_i64(x: int) -> int {
    if x > i64::MAX {
        i64::MAX as int
    } else if x < i64::MIN {
        i64::MIN as int
    } else {
        x
    }
}

/// Number of the last page: one page when nothing is there, otherwise the
/// ceiling of `total / per_page`, kept within `i64` (a zero page size
/// counts as an infinite quotient, as in floating point).
pub open spec fn last_page_of(total: int, per_page: int) -> int {
    if total == 0 {
        1
    } else if per_page == 0 {
        if total > 0 {
            i64::MAX as int
        } else {
            i64::MIN as int
        }
    } else {
        clamp_i64(ceil_div(total, per_page))
    }
}

/// Index of the first item of page `page` (pages count from 1).
pub open spec fn page_offset_of(page: int, per_page: int) -> int {
    (page - 1) * per_page
}

proof fn lemma_ceil_nonneg(a: int, d: int)
    requires
        a >= 0,
        d > 0,
    ensures
        (a + d - 1) / d == ceil_div_pos(a, d),
{
    lemma_fundamental_div_mod(a, d);
    let q = a / d;
    let r = a % d;
    assert(d * q == q * d) by (nonlinear_arith);
    if r == 0 {
        lemma_fundamental_div_mod_converse(a + d - 1, d, q, d - 1);
    } else {
        assert((q + 1) * d == q * d + d) by (nonlinear_arith);
        lemma_fundamental_div_mod_converse(a + d - 1, d, q + 1, r - 1);
    }
}

proof fn lemma_ceil_neg(a: int, d: int)
    requires
        a < 0,
        d > 0,
    ensures
        -((-a) / d) == ceil_div_pos(a, d),
{
    let m = -a;
    lemma_fundamental_div_mod(m, d);
    let q = m / d;
    let r = m % d;
    assert(d * q == q * d) by (nonlinear_arith);
    if r == 0 {
        assert(a == (-q) * d + 0) by (nonlinear_arith)
            requires
                m == q * d,
                a == -m,
        ;
        lemma_fundamental_div_mod_converse(a, d, -q, 0);
    } else {
        assert(a == (-q - 1) * d + (d - r)) by (nonlinear_arith)
            requires
                m == q * d + r,
                a == -m,
        ;
        lemma_fundamental_div_mod_converse(a, d, -q - 1, d - r);
    }
}

/// Index of the first item of page `page`, `(page - 1) * per_page`.
pub fn page_offset(page: i64, per_page: i64) -> (offset: i64)
    requires
        page > i64::MIN,
        i64::MIN <= page_offset_of(page as int, per_page as int) <= i64::MAX,
    ensures
        offset == page_offset_of(page as int, per_page as int),
{
    (page - 1) * per_page
}

/// Number of the last page of a listing of `total` items, `per_page` a page.
pub fn last_page(total: i64, per_page: i64) -> (last: i64)
    ensures
        last == last_page_of(total as int, per_page as int),
{
    if total == 0 {
        return 1;
    }
    if per_page == 0 {
        return if total > 0 {
            i64::MAX
        } else {
            i64::MIN
        };
    }
    let a: i128 = if per_page > 0 {
        total as i128
    } else {
        -(total as i128)
    };
    let d: i128 = if per_page > 0 {
        per_page as i128
    } else {
        -(per_page as i128)
    };
    assert(ceil_div(total as int, per_page as int) == ceil_div_pos(a as int, d as int));
    if a >= 0 {
        let q: u128 = ((a as u128) + (d as u128) - 1) / (d as u128);
        proof {
            lemma_ceil_nonneg(a as int, d as int);
        }
        if q > (i64::MAX as u128) {
            i64::MAX
        } else {
            q as i64
        }
    } else {
        let m: u128 = (-a) as u128;
        let q: u128 = m / (d as u128);
        proof {
            lemma_ceil_neg(a as int, d as int);
            assert(q <= m) by (nonlinear_arith)
                requires
                    q == m / (d as u128),
                    d >= 1,
            ;
        }
        (-(q as i128)) as i64
    }
}

/// Packs one page of items with the numbers that place it.
pub fn paginate<T>(items: Vec<T>, total: i64, page: i64, per_page: i64) -> (r: PaginatedResponse<
    T,
>)
    ensures
        r.items == items,
        r.total == total,
        r.page == page,
        r.per_page == per_page,
        r.last_page == last_page_of(total as int, per_page as int),
{
    let last = last_page(total, per_page);
    PaginatedResponse { items, total, page, per_page, last_page: last }
}

/// With a positive page size, a listing always has at least one page, and
/// the pages `1..=last` hold exactly the `total` items: the last page
/// starts before the end and ends at or after it.
pub proof fn lemma_pages_cover_listing(total: int, per_page: int)
    requires
        0 <= total <= i64::MAX,
        0 < per_page <= i64::MAX,
    ensures
        last_page_of(total, per_page) >= 1,
        total > 0 ==> page_offset_of(last_page_of(total, per_page), per_page) < total,
        total > 0 ==> total <= last_page_of(total, per_page) * per_page,
{
    if total > 0 {
        lemma_fundamental_div_mod(total, per_page);
        let q = total / per_page;
        let r = total % per_page;
        assert(per_page * q == q * per_page) by (nonlinear_arith);
        assert(0 <= q <= total) by (nonlinear_arith)
            requires
                total == q * per_page + r,
                0 <= r < per_page,
                per_page >= 1,
                total > 0,
        ;
        if r == 0 {
            assert(q >= 1) by (nonlinear_arith)
                requires
                    total == q * per_page,
                    total > 0,
                    per_page > 0,
            ;
            assert(page_offset_of(q, per_page) == q * per_page - per_page) by (nonlinear_arith);
        } else {
            assert(q + 1 <= i64::MAX) by (nonlinear_arith)
                requires
                    total == q * per_page + r,
                    0 < r < per_page,
                    total <= i64::MAX,
                    q >= 0,
            ;
            assert(page_offset_of(q + 1, per_page) == q * per_page) by (nonlinear_arith);
            assert((q + 1) * per_page == q * per_page + per_page) by (nonlinear_arith);
        }
    }
}

} // verus!
