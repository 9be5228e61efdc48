//! Paginated listing of the medals a player has not yet acquired, grouped
//! by medal group.

use crate::active::{
    BuildPage, ComponentAction, ComponentOutcome, ControlSurface, IActiveMessage,
    handle_pagination_component, handle_pagination_modal, pagination_controls,
};
use crate::embeds::Author;
use crate::numbers::{push_u64, spec_dec_digits};
use crate::osu::{flag_url, osu_user_url, spec_flag_url, spec_osu_user_url};
use crate::pages::{PageError, Pages};
use vstd::prelude::*;

verus! {

/// One row of the missing-medal listing: a group heading or a medal.
pub enum MedalType {
    /// A medal group heading.
    Group(String),
    /// One missing medal, shown as a link to its page.
    Medal { name: String, url: String },
}

/// Rendered text of the row at `i`. A group heading is followed by "All
/// medals acquired" when nothing of that group is missing: the next row in
/// the window is a heading again, or the heading closes the whole listing.
pub open spec fn spec_medal_line(m: MedalType, next_is_group: bool, closes_listing: bool) -> Seq<
    char,
> {
    match m {
        MedalType::Group(g) => "__**"@ + g@ + ":**__\n"@ + if next_is_group {
            "All medals acquired\n"@
        } else if closes_listing {
            "All medals acquired"@
        } else {
            Seq::<char>::empty()
        },
        MedalType::Medal { name, url } => "- ["@ + name@ + "]("@ + url@ + ")\n"@,
    }
}

/// Rendered text of the window rows `i..end`, with `includes_last` saying
/// whether the window reaches the end of the whole listing.
pub open spec fn spec_missing_lines(
    medals: Seq<MedalType>,
    i: int,
    end: int,
    includes_last: bool,
) -> Seq<char>
    decreases end - i,
{
    if i < 0 || i >= end || end > medals.len() {
        Seq::empty()
    } else {
        spec_medal_line(
            medals[i],
            i + 1 < end && medals[i + 1] is Group,
            i == end - 1 && includes_last,
        ) + spec_missing_lines(medals, i + 1, end, includes_last)
    }
}

/// End of the page window of `p`: one page past the offset, clipped to the
/// collection.
pub open spec fn spec_window_end(p: Pages) -> int {
    if p.index() + p.per_page() <= p.total_items() {
        p.index() + p.per_page()
    } else {
        p.total_items()
    }
}

/// The footer: current page, page count, and how many medals are missing
/// out of how many there are.
pub open spec fn spec_missing_footer(p: Pages, missing: usize, total: usize) -> Seq<char> {
    "Page "@ + spec_dec_digits(p.spec_curr_page()) + "/"@ + spec_dec_digits(p.spec_last_page())
        + " | Missing "@ + spec_dec_digits(missing as int) + "/"@ + spec_dec_digits(total as int)
        + " medals"@
}

/// Interactive listing of a player's missing medals, 15 rows to a page.
pub struct MedalsMissingPagination {
    /// Name of the player the listing is about.
    pub username: String,
    /// The player's id, for the author line's profile link.
    pub user_id: u32,
    /// The player's country code, for the author line's flag icon.
    pub country_code: String,
    /// The rows: group headings and missing medals, in display order.
    pub medals: Vec<MedalType>,
    /// How many medals are missing, out of how many exist.
    pub medal_count: (usize, usize),
    /// The pagination cursor.
    pub pages: Pages,
    /// Whether the registry has retired this message.
    pub closed: bool,
}

impl MedalsMissingPagination {
    /// Rows shown on one page.
    pub const PER_PAGE: usize = 15;

    /// Creates the listing, standing on the first page.
    pub fn new(
        username: String,
        user_id: u32,
        country_code: String,
        medals: Vec<MedalType>,
        total_medals: usize,
    ) -> (r: Result<MedalsMissingPagination, PageError>)
        ensures
            r matches Ok(m) && m.inv() && !m.spec_closed() && m.medals == medals
                && m.username == username && m.user_id == user_id
                && m.country_code == country_code
                && m.medal_count == (medals@.len() as usize, total_medals)
                && m.spec_pages().index() == 0 && m.spec_pages().per_page() == 15,
    {
        let count = medals.len();
        let pages = match Pages::new(Self::PER_PAGE, count) {
            Ok(pages) => pages,
            Err(_) => {
                proof {
                    assert(false);
                }
                return Err(PageError::ZeroPerPage);
            },
        };
        Ok(
            MedalsMissingPagination {
                username,
                user_id,
                country_code,
                medals,
                medal_count: (count, total_medals),
                pages,
                closed: false,
            },
        )
    }

    /// The embed author line: the player's name, linking to their profile,
    /// with their country's flag as the icon.
    pub fn author(&self) -> (a: Author)
        ensures
            a.name == self.username,
            a.url matches Some(u) && u@ == spec_osu_user_url(self.user_id),
            a.icon_url@ == spec_flag_url(self.country_code@),
    {
        Author {
            name: self.username.clone(),
            icon_url: flag_url(self.country_code.as_str()),
            url: Some(osu_user_url(self.user_id)),
        }
    }
}

impl IActiveMessage for MedalsMissingPagination {
    /// The cursor ranges over the rows of the listing.
    open spec fn inv(&self) -> bool {
        &&& self.pages.wf()
        &&& self.pages.total_items() == self.medals@.len()
    }

    open spec fn spec_pages(&self) -> Pages {
        self.pages
    }

    open spec fn spec_closed(&self) -> bool {
        self.closed
    }

    open spec fn with_pages(self, p: Pages) -> Self {
        Self { pages: p, ..self }
    }

    open spec fn spec_render(&self) -> Seq<char> {
        spec_missing_lines(
            self.medals@,
            self.pages.index(),
            spec_window_end(self.pages),
            spec_window_end(self.pages) == self.medals@.len(),
        )
    }

    open spec fn spec_footer(&self) -> Seq<char> {
        spec_missing_footer(self.pages, self.medal_count.0, self.medal_count.1)
    }

    fn pages(&self) -> (p: Pages) {
        self.pages
    }

    #[verifier::spinoff_prover]
    #[verifier::rlimit(100)]
    fn build_page(&self) -> (page: BuildPage) {
        let (start, end) = self.pages.page_window();
        let includes_last = end == self.medals.len();
        let ghost il = includes_last;
        let mut description = String::new();
        let mut i = start;
        while i < end
            invariant
                self.inv(),
                start == self.pages.index(),
                end == spec_window_end(self.pages),
                il == includes_last,
                il == (end == self.medals@.len()),
                start <= i <= end,
                end <= self.medals@.len(),
                spec_missing_lines(self.medals@, start as int, end as int, il) =~= description@
                    + spec_missing_lines(self.medals@, i as int, end as int, il),
            decreases end - i,
        {
            let ghost desc_before = description@;
            match &self.medals[i] {
                MedalType::Group(g) => {
                    description.append("__**");
                    description.append(g.as_str());
                    description.append(":**__\n");
                    let next_is_group = i + 1 < end && matches!(
                        &self.medals[i + 1],
                        MedalType::Group(_),
                    );
                    proof {
                        assert(next_is_group == (i + 1 < end && self.medals@[i + 1] is Group));
                        assert(description@ =~= desc_before + ("__**"@ + g@ + ":**__\n"@));
                    }
                    if next_is_group {
                        description.append("All medals acquired\n");
                    } else if i == end - 1 && includes_last {
                        description.append("All medals acquired");
                    }
                    proof {
                        assert(self.medals@[i as int] == MedalType::Group(*g));
                        let extra: Seq<char> = if next_is_group {
                            "All medals acquired\n"@
                        } else if i == end - 1 && il {
                            "All medals acquired"@
                        } else {
                            Seq::<char>::empty()
                        };
                        assert(description@ =~= desc_before + ("__**"@ + g@ + ":**__\n"@) + extra);
                        assert(spec_medal_line(
                            self.medals@[i as int],
                            next_is_group,
                            i == end - 1 && il,
                        ) =~= ("__**"@ + g@ + ":**__\n"@) + extra);
                        assert(description@ =~= desc_before + spec_medal_line(
                            self.medals@[i as int],
                            next_is_group,
                            i == end - 1 && il,
                        ));
                    }
                },
                MedalType::Medal { name, url } => {
                    description.append("- [");
                    description.append(name.as_str());
                    description.append("](");
                    description.append(url.as_str());
                    description.append(")\n");
                    proof {
                        assert(description@ =~= desc_before + ("- ["@ + name@ + "]("@ + url@
                            + ")\n"@));
                        assert(description@ =~= desc_before + spec_medal_line(
                            self.medals@[i as int],
                            i + 1 < end && self.medals@[i + 1] is Group,
                            i == end - 1 && il,
                        ));
                    }
                },
            }
            proof {
                assert(description@ =~= desc_before + spec_medal_line(
                    self.medals@[i as int],
                    i + 1 < end && self.medals@[i + 1] is Group,
                    i == end - 1 && il,
                ));
                assert(spec_missing_lines(self.medals@, start as int, end as int, il)
                    =~= description@ + spec_missing_lines(
                    self.medals@,
                    i + 1,
                    end as int,
                    il,
                ));
            }
            i += 1;
        }
        let curr = self.pages.curr_page();
        let last = self.pages.last_page();
        let mut footer = String::new();
        footer.append("Page ");
        push_u64(&mut footer, curr as u64);
        footer.append("/");
        push_u64(&mut footer, last as u64);
        footer.append(" | Missing ");
        push_u64(&mut footer, self.medal_count.0 as u64);
        footer.append("/");
        push_u64(&mut footer, self.medal_count.1 as u64);
        footer.append(" medals");
        proof {
            assert(footer@ =~= self.spec_footer());
        }
        BuildPage { description, footer }
    }

    fn build_components(&self) -> (c: ControlSurface) {
        pagination_controls(&self.pages)
    }

    fn handle_component(&mut self, action: ComponentAction) -> (out: ComponentOutcome) {
        handle_pagination_component(&mut self.pages, action)
    }

    fn handle_modal(&mut self, input: &str) -> (r: Result<(), PageError>) {
        handle_pagination_modal(&mut self.pages, input)
    }

    fn close(&mut self) {
        self.closed = true;
    }
}

} // verus!
