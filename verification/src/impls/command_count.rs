//! Paginated listing of how often each command has been used since the
//! process booted.

use crate::active::{
    BuildPage, ComponentAction, ComponentOutcome, ControlSurface, IActiveMessage,
    handle_pagination_component, handle_pagination_modal, pagination_controls,
};
use crate::numbers::{push_u64, spec_dec_digits};
use crate::pages::{PageError, Pages};
use vstd::prelude::*;

verus! {

/// Rendered text of the rows `i..end`: one "`name`: count" line per
/// command.
pub open spec fn spec_count_lines(rows: Seq<(String, u32)>, i: int, end: int) -> Seq<char>
    decreases end - i,
{
    if i < 0 || i >= end || end > rows.len() {
        Seq::empty()
    } else {
        "`"@ + rows[i].0@ + "`: "@ + spec_dec_digits(rows[i].1 as int) + "\n"@ + spec_count_lines(
            rows,
            i + 1,
            end,
        )
    }
}

/// The footer: current page, page count, and the boot time the counts
/// started at.
pub open spec fn spec_count_footer(p: Pages, booted_up: u64) -> Seq<char> {
    "Page "@ + spec_dec_digits(p.spec_curr_page()) + "/"@ + spec_dec_digits(p.spec_last_page())
        + " | Booted up "@ + spec_dec_digits(booted_up as int)
}

/// Interactive listing of command usage counts, 15 rows to a page.
pub struct CommandCountPagination {
    /// Command names with how often each ran, in display order.
    pub cmd_counts: Vec<(String, u32)>,
    /// When the process booted, as Unix seconds.
    pub booted_up: u64,
    /// The pagination cursor.
    pub pages: Pages,
    /// Whether the registry has retired this message.
    pub closed: bool,
}

impl CommandCountPagination {
    /// Rows shown on one page.
    pub const PER_PAGE: usize = 15;

    /// Creates the listing, standing on the first page.
    pub fn new(cmd_counts: Vec<(String, u32)>, booted_up: u64) -> (r: Result<
        CommandCountPagination,
        PageError,
    >)
        ensures
            r matches Ok(m) && m.inv() && !m.spec_closed() && m.cmd_counts == cmd_counts
                && m.booted_up == booted_up && m.spec_pages().index() == 0
                && m.spec_pages().per_page() == 15,
    {
        let count = cmd_counts.len();
        let pages = match Pages::new(Self::PER_PAGE, count) {
            Ok(pages) => pages,
            Err(_) => {
                proof {
                    assert(false);
                }
                return Err(PageError::ZeroPerPage);
            },
        };
        Ok(CommandCountPagination { cmd_counts, booted_up, pages, closed: false })
    }
}

impl IActiveMessage for CommandCountPagination {
    /// The cursor ranges over the rows of the listing.
    open spec fn inv(&self) -> bool {
        &&& self.pages.wf()
        &&& self.pages.total_items() == self.cmd_counts@.len()
    }

    open spec fn spec_pages(&self) -> Pages {
        self.pages
    }

    open spec fn spec_closed(&self) -> bool {
        self.closed
    }

    open spec fn with_pages(self, p: Pages) -> Self {
        Self { pages: p, ..self }
    }

    open spec fn spec_render(&self) -> Seq<char> {
        spec_count_lines(
            self.cmd_counts@,
            self.pages.index(),
            crate::impls::medals_missing::spec_window_end(self.pages),
        )
    }

    open spec fn spec_footer(&self) -> Seq<char> {
        spec_count_footer(self.pages, self.booted_up)
    }

    fn pages(&self) -> (p: Pages) {
        self.pages
    }

    fn build_page(&self) -> (page: BuildPage) {
        let (start, end) = self.pages.page_window();
        let mut description = String::new();
        let mut i = start;
        while i < end
            invariant
                self.inv(),
                start == self.pages.index(),
                end == crate::impls::medals_missing::spec_window_end(self.pages),
                start <= i <= end,
                end <= self.cmd_counts@.len(),
                spec_count_lines(self.cmd_counts@, start as int, end as int) =~= description@
                    + spec_count_lines(self.cmd_counts@, i as int, end as int),
            decreases end - i,
        {
            let ghost desc_before = description@;
            description.append("`");
            description.append(self.cmd_counts[i].0.as_str());
            description.append("`: ");
            push_u64(&mut description, self.cmd_counts[i].1 as u64);
            description.append("\n");
            proof {
                assert(description@ =~= desc_before + ("`"@ + self.cmd_counts@[i as int].0@
                    + "`: "@ + spec_dec_digits(self.cmd_counts@[i as int].1 as int) + "\n"@));
                assert(spec_count_lines(self.cmd_counts@, start as int, end as int)
                    =~= description@ + spec_count_lines(self.cmd_counts@, i + 1, end as int));
            }
            i += 1;
        }
        let curr = self.pages.curr_page();
        let last = self.pages.last_page();
        let mut footer = String::new();
        footer.append("Page ");
        push_u64(&mut footer, curr as u64);
        footer.append("/");
        push_u64(&mut footer, last as u64);
        footer.append(" | Booted up ");
        push_u64(&mut footer, self.booted_up);
        proof {
            assert(footer@ =~= self.spec_footer());
        }
        BuildPage { description, footer }
    }

    fn build_components(&self) -> (c: ControlSurface) {
        pagination_controls(&self.pages)
    }

    fn handle_component(&mut self, action: ComponentAction) -> (out: ComponentOutcome) {
        handle_pagination_component(&mut self.pages, action)
    }

    fn handle_modal(&mut self, input: &str) -> (r: Result<(), PageError>) {
        handle_pagination_modal(&mut self.pages, input)
    }

    fn close(&mut self) {
        self.closed = true;
    }
}

} // verus!
