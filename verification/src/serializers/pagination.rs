use vstd::prelude::*;

verus! {

/// Page size used when the request names none.
pub const DEFAULT_PAGE_SIZE: u64 = 10;

/// Page used when the request names none.
pub const DEFAULT_PAGE: u64 = 1;

/// The page size a request asks for: the one it names, else the default.
pub open spec fn effective_limit(page_size: Option<u64>) -> u64 {
    match page_size {
        Some(s) => s,
        None => DEFAULT_PAGE_SIZE,
    }
}

/// The page a request asks for: the one it names, else the first.
pub open spec fn effective_page(page: Option<u64>) -> u64 {
    match page {
        Some(p) => p,
        None => DEFAULT_PAGE,
    }
}

/// Number of rows skipped before `page` (pages count from 1; page 0 reads as
/// the first page).
pub open spec fn page_offset(page: u64, limit: u64) -> int {
    if page == 0 {
        0
    } else {
        (page - 1) * limit
    }
}

/// Number of pages of `page_size` rows that `total` rows fill (the last one
/// possibly partly).
pub open spec fn page_count(total: u64, page_size: u64) -> int {
    (total + page_size - 1) / (page_size as int)
}

/// The pages a list is cut into cover every row exactly as `build_meta`
/// counts them: for a page size above zero, page `p` (counting from 1) starts
/// before the last row if and only if `p` is at most the page count, and the
/// page count times the page size reaches the total.
pub proof fn lemma_page_count_covers_rows(total: u64, limit: u64)
    requires
        limit > 0,
    ensures
        page_count(total, limit) * limit >= total,
        page_count(total, limit) >= 0,
        forall|p: u64| #![trigger page_offset(p, limit)]
            p >= 1 ==> (page_offset(p, limit) < total <==> p <= page_count(total, limit)),
{
    let c = page_count(total, limit);
    let t = total as int;
    let l = limit as int;
    assert(c * l <= t + l - 1 && t + l - 1 < (c + 1) * l && c >= 0) by (nonlinear_arith)
        requires
            c == (t + l - 1) / l,
            l > 0,
            t >= 0,
    ;
    assert(c * l >= t) by (nonlinear_arith)
        requires
            t + l - 1 < (c + 1) * l,
            l > 0,
    ;
    assert forall|p: u64| p >= 1 implies (page_offset(p, limit) < total <==> p <= c) by {
        let q = p as int;
        assert(page_offset(p, limit) == (q - 1) * l);
        if q <= c {
            assert((q - 1) * l < t) by (nonlinear_arith)
                requires
                    q <= c,
                    l > 0,
                    c * l <= t + l - 1,
            ;
        } else {
            assert((q - 1) * l >= t) by (nonlinear_arith)
                requires
                    q - 1 >= c,
                    l > 0,
                    t + l - 1 < (c + 1) * l,
            ;
        }
    }
}

/// Pagination metadata returned beside a list.
pub struct PaginationMeta {
    pub total: u64,
    pub total_pages: u64,
    pub page_size: u64,
    pub page: u64,
}

impl PaginationMeta {
    pub fn build(total: u64, total_pages: u64, page_size: u64, page: u64) -> (r: PaginationMeta)
        ensures
            r.total == total,
            r.total_pages == total_pages,
            r.page_size == page_size,
            r.page == page,
    {
        PaginationMeta { total, total_pages, page_size, page }
    }
}

/// Something that carries the page and page size a list request asked for.
pub trait Paginate {
    /// The page named in the request, if any.
    spec fn page_param(&self) -> Option<u64>;

    /// The page size named in the request, if any.
    spec fn page_size_param(&self) -> Option<u64>;

    fn limit(&self) -> (r: u64)
        ensures
            r == effective_limit(self.page_size_param()),
    ;

    fn page(&self) -> (r: u64)
        ensures
            r == effective_page(self.page_param()),
    ;

    fn offset(&self) -> (r: u64)
        requires
            page_offset(effective_page(self.page_param()), effective_limit(self.page_size_param()))
                <= u64::MAX,
        ensures
            r == page_offset(
                effective_page(self.page_param()),
                effective_limit(self.page_size_param()),
            ),
    ;

    /// The metadata of a list of `total` rows. The page count is
    /// `(total + page_size - 1) / page_size`, evaluated left to right as in the
    /// service, so `total + page_size` itself must fit in a `u64` (it
    /// overflows at exactly 2^64, before the `- 1`), and a zero page size
    /// divides by zero.
    fn build_meta(&self, total: u64) -> (r: PaginationMeta)
        requires
            effective_limit(self.page_size_param()) > 0,
            total + effective_limit(self.page_size_param()) <= u64::MAX,
        ensures
            r.total == total,
            r.page_size == effective_limit(self.page_size_param()),
            r.page == effective_page(self.page_param()),
            r.total_pages == page_count(total, effective_limit(self.page_size_param())),
    {
        let page_size = self.limit();
        let page = self.page();
        let total_pages = (total + page_size - 1) / page_size;
        PaginationMeta::build(total, total_pages, page_size, page)
    }
}

/// Plain page / page-size query.
pub struct Pagination {
    pub page: Option<u64>,
    pub page_size: Option<u64>,
}

impl Paginate for Pagination {
    open spec fn page_param(&self) -> Option<u64> {
        self.page
    }

    open spec fn page_size_param(&self) -> Option<u64> {
        self.page_size
    }

    fn limit(&self) -> (r: u64) {
        self.page_size.unwrap_or(10)
    }

    fn page(&self) -> (r: u64) {
        self.page.unwrap_or(1)
    }

    fn offset(&self) -> (r: u64) {
        let page: u64 = self.page();
        if page == 0 {
            return 0;
        }
        (page - 1) * self.limit()
    }
}

} // verus!
