//! Page arithmetic for listings: page and limit defaults, the offset of a
//! page, and the number of pages a total needs.
use vstd::prelude::*;

verus! {

/// Query parameters of a listing.
#[derive(Debug, Clone, PartialEq, Eq)]
pub struct Pagination {
    pub page: Option<usize>,
    pub limit: Option<usize>,
    pub search: Option<String>,
}

/// What a page of a listing reports about the whole.
#[derive(Debug, Clone, Copy, PartialEq, Eq, Structural)]
pub struct PaginationMeta {
    pub current_page: usize,
    pub limit: usize,
    pub total: u64,
    pub total_pages: u64,
}

/// One page of a listing with its pagination metadata.
#[derive(Debug, Clone, PartialEq, Eq)]
pub struct PaginatedResponse<T> {
    pub data: Vec<T>,
    pub pagination: PaginationMeta,
}

/// The page asked for, page one when none is.
pub open spec fn page_or_default(page: Option<usize>) -> int {
    match page {
        Some(p) => p as int,
        None => 1,
    }
}

/// The page size asked for, ten when none is.
pub open spec fn limit_or_default(limit: Option<usize>) -> int {
    match limit {
        Some(l) => l as int,
        None => 10,
    }
}

/// Pages are counted from one, and the page's offset must be addressable.
pub open spec fn pagination_in_range(page: Option<usize>, limit: Option<usize>) -> bool {
    &&& page_or_default(page) >= 1
    &&& (page_or_default(page) - 1) * limit_or_default(limit) <= usize::MAX
}

/// Page, limit and offset of a listing request: page one and ten per page
/// by default, and the page starts after `(page - 1) * limit` entries.
pub fn calculate_pagination(page: Option<usize>, limit: Option<usize>) -> (r: (usize, usize, usize))
    requires
        pagination_in_range(page, limit),
    ensures
        r.0 == page_or_default(page),
        r.1 == limit_or_default(limit),
        r.2 == (r.0 - 1) * r.1,
{
    let page: usize = match page {
        Some(p) => p,
        None => 1,
    };
    let limit: usize = match limit {
        Some(l) => l,
        None => 10,
    };
    let offset: usize = (page - 1) * limit;
    (page, limit, offset)
}

/// Page, limit and offset of a listing request when the page is at least
/// one, the limit at least one and the offset addressable; `None` otherwise.
pub fn checked_pagination(page: Option<usize>, limit: Option<usize>) -> (r: Option<(usize, usize, usize)>)
    ensures
        r is Some <==> pagination_in_range(page, limit) && limit_or_default(limit) >= 1,
        r matches Some(t) ==> {
            &&& t.0 == page_or_default(page)
            &&& t.1 == limit_or_default(limit)
            &&& t.2 == (t.0 - 1) * t.1
        },
{
    let p: usize = match page {
        Some(p) => p,
        None => 1,
    };
    let l: usize = match limit {
        Some(l) => l,
        None => 10,
    };
    if p < 1 || l < 1 {
        return None;
    }
    match (p - 1).checked_mul(l) {
        None => None,
        Some(_) => Some(calculate_pagination(page, limit)),
    }
}

/// `total / limit`, rounded up.
pub open spec fn ceil_div(total: nat, limit: nat) -> nat
    recommends
        limit > 0,
{
    ((total + limit - 1) / limit as int) as nat
}

/// The number of pages of `limit` entries that `total` entries fill.
pub fn total_pages(total: u64, limit: usize) -> (r: u64)
    requires
        limit > 0,
    ensures
        r == ceil_div(total as nat, limit as nat),
{
    let l = limit as u64;
    let whole = total / l;
    let rest = total % l;
    assert(total == whole * l + rest && rest < l) by (nonlinear_arith)
        requires
            l > 0,
            whole == total / l,
            rest == total % l,
    ;
    let r = if rest == 0 {
        whole
    } else {
        assert(whole < u64::MAX) by (nonlinear_arith)
            requires
                total == whole * l + rest,
                rest > 0,
                l > 0,
                total <= u64::MAX,
        ;
        whole + 1
    };
    assert(r == ceil_div(total as nat, limit as nat)) by (nonlinear_arith)
        requires
            l > 0,
            l == limit,
            total == whole * l + rest,
            0 <= rest < l,
            rest == 0 ==> r == whole,
            rest != 0 ==> r == whole + 1,
    {
        let c = (total + l - 1) / l as int;
        if rest == 0 {
            assert(total + l - 1 == whole * l + (l - 1));
        } else {
            assert(total + l - 1 == (whole + 1) * l + (rest - 1));
        }
    }
    r
}

impl PaginationMeta {
    /// Metadata of page `current_page` of `limit` entries out of `total`.
    pub fn new(current_page: usize, limit: usize, total: u64) -> (r: PaginationMeta)
        requires
            limit > 0,
        ensures
            r.current_page == current_page,
            r.limit == limit,
            r.total == total,
            r.total_pages == ceil_div(total as nat, limit as nat),
    {
        PaginationMeta { current_page, limit, total, total_pages: total_pages(total, limit) }
    }
}

/// The entries of page `page` of `limit` entries out of `entries`.
pub open spec fn page_slice<T>(entries: Seq<T>, page: nat, limit: nat) -> Seq<T>
    recommends
        page >= 1,
{
    let start = (page - 1) * limit;
    let end = start + limit;
    if start >= entries.len() {
        Seq::empty()
    } else if end >= entries.len() {
        entries.subrange(start, entries.len() as int)
    } else {
        entries.subrange(start, end)
    }
}

/// Pagination correctness: page `page` holds at most `limit` entries, those
/// from offset `(page - 1) * limit` on, and it holds any entry at all exactly
/// when `page` is within the reported page count.
pub proof fn lemma_page_bounds<T>(entries: Seq<T>, page: nat, limit: nat)
    requires
        page >= 1,
        limit > 0,
    ensures
        page_slice(entries, page, limit).len() <= limit,
        forall|k: int|
            0 <= k < page_slice(entries, page, limit).len() ==> #[trigger] page_slice(
                entries,
                page,
                limit,
            )[k] == entries[(page - 1) * limit + k],
        page_slice(entries, page, limit).len() > 0 <==> page <= ceil_div(entries.len(), limit),
{
    let n = entries.len();
    let start = (page - 1) * limit;
    assert((start < n) <==> (page <= ceil_div(n, limit))) by (nonlinear_arith)
        requires
            page >= 1,
            limit > 0,
            start == (page - 1) * limit,
    {
        let c = (n + limit - 1) / limit as int;
        assert(c * limit <= n + limit - 1);
        assert(n + limit - 1 < (c + 1) * limit);
        if start < n {
            assert((page - 1) * limit + 1 <= n);
            assert((page - 1) * limit + limit <= n + limit - 1);
            assert(page * limit <= n + limit - 1);
            assert(page <= c) by {
                if page > c {
                    assert(page >= c + 1);
                    assert(page * limit >= (c + 1) * limit);
                }
            }
        } else {
            assert(page - 1 >= c) by {
                if page - 1 < c {
                    assert(page <= c);
                    assert(page * limit <= c * limit);
                    assert(start + limit <= n + limit - 1);
                }
            }
        }
    }
}

} // verus!
