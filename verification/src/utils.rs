//! The pagination window: a 1-based page number and a page size, clamped to
//! safe ranges, from which the list operation derives the slice of records it
//! returns.

use vstd::prelude::*;

verus! {

/// The transient pagination parameters of a list request.
///
/// `page` is 1-based and clamped to a minimum of 1; `per_page` is clamped to
/// the inclusive range [1, 100]. Absent parameters fall back to the defaults
/// `page = 1`, `per_page = 30`.
pub struct Pagination {
    pub page: usize,
    pub per_page: usize,
}

impl Pagination {
    /// The page number actually used: at least 1.
    pub open spec fn clamped_page(self) -> int {
        if self.page < 1 {
            1
        } else {
            self.page as int
        }
    }

    /// The page size actually used: within [1, 100].
    pub open spec fn clamped_per_page(self) -> int {
        if self.per_page < 1 {
            1
        } else if self.per_page > 100 {
            100
        } else {
            self.per_page as int
        }
    }

    /// How many records the list operation skips.
    pub open spec fn offset(self) -> int {
        (self.clamped_page() - 1) * self.clamped_per_page()
    }

    /// The first index of the requested window in a dataset of `len` records.
    pub open spec fn window_lo(self, len: int) -> int {
        if self.offset() <= len {
            self.offset()
        } else {
            len
        }
    }

    /// One past the last index of the requested window in a dataset of `len`
    /// records.
    pub open spec fn window_hi(self, len: int) -> int {
        if self.offset() + self.clamped_per_page() <= len {
            self.offset() + self.clamped_per_page()
        } else {
            len
        }
    }

    /// Clamps the raw parameters: the page to a minimum of 1, the page size
    /// to the range [1, 100].
    pub fn clamp(&self) -> (r: (usize, usize))
        ensures
            r.0 as int == self.clamped_page(),
            r.1 as int == self.clamped_per_page(),
            1 <= r.0,
            1 <= r.1 <= 100,
    {
        let page: usize = if self.page < 1 {
            1
        } else {
            self.page
        };
        let per_page: usize = if self.per_page < 1 {
            1
        } else if self.per_page > 100 {
            100
        } else {
            self.per_page
        };
        (page, per_page)
    }

    /// The bounds of the requested window in a dataset of `len` records,
    /// both clipped to `len`: the window is empty past the end of the data,
    /// never an error.
    pub fn window(&self, len: usize) -> (w: (usize, usize))
        ensures
            w.0 as int == self.window_lo(len as int),
            w.1 as int == self.window_hi(len as int),
            w.0 <= w.1 <= len,
    {
        let (page, per_page) = self.clamp();
        proof {
            assert((page as int - 1) * (per_page as int) <= u64::MAX as int * 100)
                by (nonlinear_arith)
                requires
                    1 <= page as int <= u64::MAX as int,
                    1 <= per_page as int <= 100,
            ;
        }
        let skip: u128 = (page as u128 - 1) * (per_page as u128);
        proof {
            assert(skip == self.offset());
        }
        let lo: usize = if skip >= len as u128 {
            len
        } else {
            skip as usize
        };
        let remaining: usize = len - lo;
        let take: usize = if per_page < remaining {
            per_page
        } else {
            remaining
        };
        (lo, lo + take)
    }
}

impl Pagination {
    /// The bounds of the single bounded read that a list request issues,
    /// as signed 64-bit values: at most `clamped_per_page` records are
    /// returned, after skipping `offset` records, the skip capped at the
    /// largest representable value. Any real dataset is shorter than the
    /// cap, so a capped skip still selects the empty window.
    pub fn sql_window(&self) -> (w: (i64, i64))
        ensures
            w.0 as int == self.clamped_per_page(),
            w.1 as int == if self.offset() <= i64::MAX as int {
                self.offset()
            } else {
                i64::MAX as int
            },
    {
        let (page, per_page) = self.clamp();
        proof {
            assert((page as int - 1) * (per_page as int) <= u64::MAX as int * 100)
                by (nonlinear_arith)
                requires
                    1 <= page as int <= u64::MAX as int,
                    1 <= per_page as int <= 100,
            ;
        }
        let skip: u128 = (page as u128 - 1) * (per_page as u128);
        proof {
            assert(skip == self.offset());
        }
        let offset: i64 = if skip >= i64::MAX as u128 {
            i64::MAX
        } else {
            skip as i64
        };
        (per_page as i64, offset)
    }
}

impl Default for Pagination {
    /// Absent pagination parameters: the first page, thirty records.
    fn default() -> (p: Self)
        ensures
            p.page == 1,
            p.per_page == 30,
    {
        Pagination { page: 1, per_page: 30 }
    }
}

} // verus!
