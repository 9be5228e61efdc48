//! Pagination cursor for an interactive message.
//!
//! A [`Pages`] value tracks which slice of a fixed collection is currently
//! rendered: a zero-based item offset, the page size, and the collection
//! size. The offset is kept page-aligned at all times, so every navigation
//! operation lands on the start of a page.

use vstd::arithmetic::div_mod::{
    lemma_div_is_ordered, lemma_div_nonincreasing, lemma_div_of0, lemma_fundamental_div_mod,
    lemma_mod_division_less_than_divisor, lemma_mod_multiples_basic, lemma_mod_multiples_vanish,
};
use vstd::arithmetic::mul::{
    lemma_mul_inequality, lemma_mul_is_commutative, lemma_mul_nonnegative,
    lemma_mul_unary_negation,
};
use vstd::prelude::*;

verus! {

/// Why a navigation request was rejected. Rejections are user-facing
/// validation errors: the cursor is left untouched.
#[derive(Clone, Copy, PartialEq, Eq, Structural, Debug)]
pub enum PageError {
    /// A cursor cannot be created with a page size of zero.
    ZeroPerPage,
    /// A page jump named a page outside `1..=last_page`.
    JumpOutOfRange,
    /// An item jump named an offset outside the collection.
    ItemOutOfRange,
    /// A "jump to page" form submission that is not a decimal number.
    InvalidJumpInput,
}

/// A page-relative navigation request.
#[derive(Clone, Copy, PartialEq, Eq, Structural, Debug)]
pub enum PageChange {
    /// Go to the first page.
    First,
    /// Go some number of pages back, stopping at the first page.
    Previous,
    /// Go some number of pages forward, stopping at the last page.
    Next,
    /// Go to the last page.
    Last,
}

/// Cursor over a fixed collection of `total_items` items, `per_page` items
/// to a page, currently standing on item offset `index`.
#[derive(Clone, Copy, PartialEq, Eq, Structural, Debug)]
pub struct Pages {
    index: usize,
    per_page: usize,
    total_items: usize,
}

impl Pages {
    /// Current item offset (start of the current page).
    pub closed spec fn index(self) -> int {
        self.index as int
    }

    /// Items per page; always at least 1.
    pub closed spec fn per_page(self) -> int {
        self.per_page as int
    }

    /// Size of the backing collection; fixed at creation.
    pub closed spec fn total_items(self) -> int {
        self.total_items as int
    }

    /// Cursor well-formedness: the page size is positive, the offset is
    /// page-aligned, and the offset lies inside the collection (at 0 when
    /// the collection is empty).
    pub open spec fn wf(self) -> bool {
        &&& self.per_page() >= 1
        &&& self.index() % self.per_page() == 0
        &&& if self.total_items() == 0 {
            self.index() == 0
        } else {
            self.index() < self.total_items()
        }
    }

    /// 1-based number of the current page.
    pub open spec fn spec_curr_page(self) -> int {
        self.index() / self.per_page() + 1
    }

    /// 1-based number of the last page; an empty collection still has one
    /// (empty) page.
    pub open spec fn spec_last_page(self) -> int {
        if self.total_items() == 0 {
            1
        } else {
            (self.total_items() - 1) / self.per_page() + 1
        }
    }

    /// Item offset at which the last page starts.
    pub open spec fn spec_last_index(self) -> int {
        (self.spec_last_page() - 1) * self.per_page()
    }

    /// Whether the cursor stands on the last page.
    pub open spec fn on_last_page(self) -> bool {
        self.index() == self.spec_last_index()
    }

    /// The offset reached by a page-relative move of `amount` pages.
    pub open spec fn nav_index(self, change: PageChange, amount: int) -> int {
        match change {
            PageChange::First => 0,
            PageChange::Previous => if amount * self.per_page() <= self.index() {
                self.index() - amount * self.per_page()
            } else {
                0
            },
            PageChange::Next => if self.index() + amount * self.per_page()
                <= self.spec_last_index() {
                self.index() + amount * self.per_page()
            } else {
                self.spec_last_index()
            },
            PageChange::Last => self.spec_last_index(),
        }
    }

    /// Facts every well-formed cursor enjoys: the last page exists, its
    /// start is page-aligned, lies within the collection, and is not before
    /// the current offset.
    pub proof fn lemma_wf_bounds(self)
        requires
            self.wf(),
        ensures
            1 <= self.spec_last_page(),
            self.spec_last_index() % self.per_page() == 0,
            self.total_items() == 0 ==> self.spec_last_index() == 0,
            self.total_items() > 0 ==> self.spec_last_index() < self.total_items(),
            self.index() <= self.spec_last_index(),
            self.spec_curr_page() <= self.spec_last_page(),
    {
        let p = self.per_page();
        let t = self.total_items();
        let i = self.index();
        lemma_mod_multiples_basic(self.spec_last_page() - 1, p);
        if t == 0 {
            lemma_div_of0(p);
        } else {
            lemma_div_is_ordered(0, t - 1, p);
            lemma_div_of0(p);
            // The last page starts within the collection.
            lemma_fundamental_div_mod(t - 1, p);
            lemma_mod_division_less_than_divisor(t - 1, p);
            lemma_mul_is_commutative((t - 1) / p, p);
            // The current offset is a whole number of pages, none past the last.
            lemma_div_is_ordered(i, t - 1, p);
            lemma_fundamental_div_mod(i, p);
            lemma_mul_is_commutative(i / p, p);
            lemma_mul_inequality(i / p, (t - 1) / p, p);
        }
    }

    /// Creates a cursor standing on the first page.
    ///
    /// A page size of zero is rejected; an empty collection is valid and
    /// renders a single empty page.
    pub fn new(per_page: usize, total_items: usize) -> (r: Result<Pages, PageError>)
        ensures
            per_page == 0 ==> r === Err(PageError::ZeroPerPage),
            per_page > 0 ==> (r matches Ok(p)
                && p.wf()
                && p.index() == 0
                && p.per_page() == per_page
                && p.total_items() == total_items),
    {
        if per_page == 0 {
            return Err(PageError::ZeroPerPage);
        }
        proof {
            assert(0int % (per_page as int) == 0) by (nonlinear_arith)
                requires per_page >= 1;
        }
        Ok(Pages { index: 0, per_page, total_items })
    }

    /// Current item offset.
    pub fn get_index(&self) -> (i: usize)
        ensures
            i == self.index(),
    {
        self.index
    }

    /// Items per page.
    pub fn get_per_page(&self) -> (p: usize)
        ensures
            p == self.per_page(),
    {
        self.per_page
    }

    /// Size of the backing collection.
    pub fn get_total_items(&self) -> (t: usize)
        ensures
            t == self.total_items(),
    {
        self.total_items
    }

    /// 1-based number of the current page.
    pub fn curr_page(&self) -> (page: usize)
        requires
            self.wf(),
        ensures
            page == self.spec_curr_page(),
    {
        proof {
            lemma_div_nonincreasing(self.index(), self.per_page());
            if self.total_items() == 0 {
                lemma_div_of0(self.per_page());
            }
        }
        self.index / self.per_page + 1
    }

    /// 1-based number of the last page.
    pub fn last_page(&self) -> (page: usize)
        requires
            self.wf(),
        ensures
            page == self.spec_last_page(),
    {
        if self.total_items == 0 {
            1
        } else {
            proof {
                lemma_div_nonincreasing(self.total_items() - 1, self.per_page());
            }
            (self.total_items - 1) / self.per_page + 1
        }
    }

    /// Half-open bounds `(start, end)` of the slice of the backing
    /// collection that the current page shows.
    ///
    /// For every well-formed cursor the bounds satisfy
    /// `0 <= start <= end <= total_items` and cover at most one page.
    pub fn page_window(&self) -> (w: (usize, usize))
        requires
            self.wf(),
        ensures
            w.0 == self.index(),
            w.1 == if self.index() + self.per_page() <= self.total_items() {
                self.index() + self.per_page()
            } else {
                self.total_items()
            },
            0 <= w.0 <= w.1 <= self.total_items(),
            w.1 - w.0 <= self.per_page(),
    {
        let start = self.index;
        let end = if self.total_items - start >= self.per_page {
            start + self.per_page
        } else {
            self.total_items
        };
        (start, end)
    }

    /// Item offset at which the last page starts.
    pub fn last_index(&self) -> (i: usize)
        requires
            self.wf(),
        ensures
            i == self.spec_last_index(),
    {
        proof {
            self.lemma_wf_bounds();
        }
        let lp = self.last_page();
        (lp - 1) * self.per_page
    }

    /// Applies a page-relative move, clamped to the collection: `Previous`
    /// stops at the first page, `Next` stops at the last. A `Next` taken on
    /// the last page and a `Previous` taken on the first page change
    /// nothing.
    pub fn advance(&mut self, change: PageChange, amount: usize)
        requires
            old(self).wf(),
        ensures
            final(self).wf(),
            final(self).per_page() == old(self).per_page(),
            final(self).total_items() == old(self).total_items(),
            final(self).index() == old(self).nav_index(change, amount as int),
    {
        proof {
            old(self).lemma_wf_bounds();
        }
        let per = self.per_page;
        match change {
            PageChange::First => {
                proof {
                    assert(0int % (per as int) == 0) by (nonlinear_arith)
                        requires per >= 1;
                }
                self.index = 0;
            },
            PageChange::Previous => {
                let stepped_back = match amount.checked_mul(per) {
                    Some(step) if step <= self.index => {
                        proof {
                            lemma_mod_multiples_vanish(
                                -(amount as int),
                                self.index(),
                                per as int,
                            );
                            lemma_mul_is_commutative(amount as int, per as int);
                            lemma_mul_unary_negation(per as int, amount as int);
                        }
                        self.index - step
                    },
                    _ => {
                        proof {
                            assert(0int % (per as int) == 0) by (nonlinear_arith)
                                requires per >= 1;
                        }
                        0
                    },
                };
                self.index = stepped_back;
            },
            PageChange::Next => {
                let last = self.last_index();
                let candidate = match amount.checked_mul(per) {
                    Some(step) => self.index.checked_add(step),
                    None => None,
                };
                let stepped = match candidate {
                    Some(c) if c <= last => {
                        proof {
                            lemma_mod_multiples_vanish(amount as int, self.index(), per as int);
                            lemma_mul_is_commutative(amount as int, per as int);
                        }
                        c
                    },
                    _ => last,
                };
                self.index = stepped;
            },
            PageChange::Last => {
                let last = self.last_index();
                self.index = last;
            },
        }
    }

    /// Jumps to the 1-based page `page`.
    ///
    /// A target outside `1..=last_page` is a validation error reported to
    /// the caller; the cursor is left unchanged.
    pub fn jump(&mut self, page: usize) -> (r: Result<(), PageError>)
        requires
            old(self).wf(),
        ensures
            final(self).wf(),
            final(self).per_page() == old(self).per_page(),
            final(self).total_items() == old(self).total_items(),
            1 <= page <= old(self).spec_last_page() ==> (r === Ok(())
                && final(self).index() == (page - 1) * old(self).per_page()),
            !(1 <= page <= old(self).spec_last_page()) ==> (r === Err(
                PageError::JumpOutOfRange,
            ) && *final(self) === *old(self)),
    {
        let last = self.last_page();
        if page == 0 || page > last {
            return Err(PageError::JumpOutOfRange);
        }
        proof {
            self.lemma_wf_bounds();
            lemma_mul_inequality(page as int - 1, last as int - 1, self.per_page());
            lemma_mod_multiples_basic(page as int - 1, self.per_page());
            lemma_mul_nonnegative(page as int - 1, self.per_page());
        }
        self.index = (page - 1) * self.per_page;
        Ok(())
    }

    /// Jumps to the page that contains the item at 0-based offset `item`.
    ///
    /// An offset outside the collection is a validation error; the cursor
    /// is left unchanged.
    pub fn jump_to_item(&mut self, item: usize) -> (r: Result<(), PageError>)
        requires
            old(self).wf(),
        ensures
            final(self).wf(),
            final(self).per_page() == old(self).per_page(),
            final(self).total_items() == old(self).total_items(),
            item < old(self).total_items() ==> (r === Ok(())
                && final(self).index() == item as int - (item as int) % old(self).per_page()),
            item >= old(self).total_items() ==> (r === Err(PageError::ItemOutOfRange)
                && *final(self) === *old(self)),
    {
        if item >= self.total_items {
            return Err(PageError::ItemOutOfRange);
        }
        proof {
            lemma_mod_division_less_than_divisor(item as int, self.per_page());
            lemma_fundamental_div_mod(item as int, self.per_page());
            lemma_mul_is_commutative((item as int) / self.per_page(), self.per_page());
            lemma_mod_multiples_basic((item as int) / self.per_page(), self.per_page());
        }
        self.index = item - item % self.per_page;
        Ok(())
    }
}

/// Law: navigating to the first page always lands on offset 0 — in
/// particular, `Last` followed by `First` returns to the start — and a
/// `Next` step taken on the last page is a no-op (the offset is unchanged).
pub proof fn lemma_last_then_first_and_next_noop(p: Pages, amount: int)
    requires
        p.wf(),
        amount >= 0,
    ensures
        Pages::nav_index(p, PageChange::First, amount) == 0,
        p.on_last_page() ==> Pages::nav_index(p, PageChange::Next, amount) == p.index(),
{
    p.lemma_wf_bounds();
    lemma_mul_nonnegative(amount, p.per_page());
}

} // verus!
