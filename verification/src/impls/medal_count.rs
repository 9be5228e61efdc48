//! Paginated medal-count ranking, with a shortcut that jumps to the page
//! showing the requesting user's own position.

use crate::active::{
    BuildPage, ComponentAction, ComponentOutcome, ControlSurface, IActiveMessage,
    handle_pagination_component, handle_pagination_modal, pagination_controls,
};
use crate::impls::medals_missing::spec_window_end;
use crate::numbers::{push_u64, spec_dec_digits};
use crate::pages::{PageError, Pages};
use vstd::prelude::*;

verus! {

/// Rendered text of the ranking rows `i..end`: "rank) name: count", with
/// 1-based ranks.
pub open spec fn spec_ranking_lines(rows: Seq<(String, u32)>, i: int, end: int) -> Seq<char>
    decreases end - i,
{
    if i < 0 || i >= end || end > rows.len() {
        Seq::empty()
    } else {
        spec_dec_digits(i + 1) + ") "@ + rows[i].0@ + ": "@ + spec_dec_digits(rows[i].1 as int)
            + "\n"@ + spec_ranking_lines(rows, i + 1, end)
    }
}

/// The footer: current page and page count.
pub open spec fn spec_ranking_footer(p: Pages) -> Seq<char> {
    "Page "@ + spec_dec_digits(p.spec_curr_page()) + "/"@ + spec_dec_digits(p.spec_last_page())
}

/// Interactive medal-count ranking, 10 rows to a page.
pub struct MedalCountPagination {
    /// The ranking rows: player name and medal count, best first.
    pub ranking: Vec<(String, u32)>,
    /// Position of the requesting user in the ranking, if they are in it.
    pub author_idx: Option<usize>,
    /// The pagination cursor.
    pub pages: Pages,
    /// Whether the registry has retired this message.
    pub closed: bool,
}

impl MedalCountPagination {
    /// Rows shown on one page.
    pub const PER_PAGE: usize = 10;

    /// Creates the ranking listing, standing on the first page.
    pub fn new(ranking: Vec<(String, u32)>, author_idx: Option<usize>) -> (r: Result<
        MedalCountPagination,
        PageError,
    >)
        ensures
            r matches Ok(m) && m.inv() && !m.spec_closed() && m.ranking == ranking
                && m.author_idx == author_idx && m.spec_pages().index() == 0
                && m.spec_pages().per_page() == 10,
    {
        let count = ranking.len();
        let pages = match Pages::new(Self::PER_PAGE, count) {
            Ok(pages) => pages,
            Err(_) => {
                proof {
                    assert(false);
                }
                return Err(PageError::ZeroPerPage);
            },
        };
        Ok(MedalCountPagination { ranking, author_idx, pages, closed: false })
    }

    /// Jumps to the page that shows the requesting user's own position;
    /// rejected, with the cursor unchanged, when the user is not in the
    /// ranking.
    pub fn jump_to_author(&mut self) -> (r: Result<(), PageError>)
        requires
            old(self).inv(),
        ensures
            final(self).inv(),
            final(self).ranking == old(self).ranking,
            final(self).author_idx == old(self).author_idx,
            final(self).closed == old(self).closed,
            match old(self).author_idx {
                Some(idx) => if idx < old(self).spec_pages().total_items() {
                    r === Ok(()) && final(self).spec_pages().index() == idx as int - (
                    idx as int) % old(self).spec_pages().per_page()
                } else {
                    r === Err(PageError::ItemOutOfRange) && final(self).spec_pages() == old(
                        self,
                    ).spec_pages()
                },
                None => r === Err(PageError::ItemOutOfRange) && final(self).spec_pages() == old(
                    self,
                ).spec_pages(),
            },
    {
        match self.author_idx {
            Some(idx) => self.pages.jump_to_item(idx),
            None => Err(PageError::ItemOutOfRange),
        }
    }
}

impl IActiveMessage for MedalCountPagination {
    /// The cursor ranges over the ranking rows.
    open spec fn inv(&self) -> bool {
        &&& self.pages.wf()
        &&& self.pages.total_items() == self.ranking@.len()
    }

    open spec fn spec_pages(&self) -> Pages {
        self.pages
    }

    open spec fn spec_closed(&self) -> bool {
        self.closed
    }

    open spec fn with_pages(self, p: Pages) -> Self {
        Self { pages: p, ..self }
    }

    open spec fn spec_render(&self) -> Seq<char> {
        spec_ranking_lines(self.ranking@, self.pages.index(), spec_window_end(self.pages))
    }

    open spec fn spec_footer(&self) -> Seq<char> {
        spec_ranking_footer(self.pages)
    }

    fn pages(&self) -> (p: Pages) {
        self.pages
    }

    fn build_page(&self) -> (page: BuildPage) {
        let (start, end) = self.pages.page_window();
        let mut description = String::new();
        let mut i = start;
        while i < end
            invariant
                self.inv(),
                start == self.pages.index(),
                end == spec_window_end(self.pages),
                start <= i <= end,
                end <= self.ranking@.len(),
                spec_ranking_lines(self.ranking@, start as int, end as int) =~= description@
                    + spec_ranking_lines(self.ranking@, i as int, end as int),
            decreases end - i,
        {
            let ghost desc_before = description@;
            push_u64(&mut description, (i + 1) as u64);
            description.append(") ");
            description.append(self.ranking[i].0.as_str());
            description.append(": ");
            push_u64(&mut description, self.ranking[i].1 as u64);
            description.append("\n");
            proof {
                assert(description@ =~= desc_before + (spec_dec_digits(i + 1) + ") "@
                    + self.ranking@[i as int].0@ + ": "@ + spec_dec_digits(
                    self.ranking@[i as int].1 as int,
                ) + "\n"@));
                assert(spec_ranking_lines(self.ranking@, start as int, end as int)
                    =~= description@ + spec_ranking_lines(self.ranking@, i + 1, end as int));
            }
            i += 1;
        }
        let curr = self.pages.curr_page();
        let last = self.pages.last_page();
        let mut footer = String::new();
        footer.append("Page ");
        push_u64(&mut footer, curr as u64);
        footer.append("/");
        push_u64(&mut footer, last as u64);
        proof {
            assert(footer@ =~= self.spec_footer());
        }
        BuildPage { description, footer }
    }

    fn build_components(&self) -> (c: ControlSurface) {
        pagination_controls(&self.pages)
    }

    fn handle_component(&mut self, action: ComponentAction) -> (out: ComponentOutcome) {
        handle_pagination_component(&mut self.pages, action)
    }

    fn handle_modal(&mut self, input: &str) -> (r: Result<(), PageError>) {
        handle_pagination_modal(&mut self.pages, input)
    }

    fn close(&mut self) {
        self.closed = true;
    }
}

} // verus!
