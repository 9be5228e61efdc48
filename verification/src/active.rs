//! The active-message contract: what every interactive message variant
//! offers the registry and the router.
//!
//! An active message renders a page of content, shows a control surface
//! that reflects the cursor position, and reacts to component and modal
//! events. The state machine of every instance is `Active → Active` on
//! accepted events and `Active → Closed` when the registry retires it;
//! closed is terminal.

use crate::numbers::{parse_usize, spec_parse_usize};
use crate::pages::{PageChange, PageError, Pages};
use vstd::prelude::*;

verus! {

/// Identity of a posted platform message: the channel and the message id.
#[derive(Clone, Copy, PartialEq, Eq, Structural, Debug, Hash)]
pub struct MessageIdentity {
    pub channel_id: u64,
    pub message_id: u64,
}

/// Who may operate the controls of an active message.
#[derive(Clone, Copy, PartialEq, Eq, Structural, Debug)]
pub enum Owner {
    /// Only this user; everyone else is rejected with an ephemeral notice.
    User(u64),
    /// Anyone may navigate, as on public rankings.
    Anyone,
}

impl Owner {
    /// Whether `actor` may operate the controls.
    pub open spec fn spec_allows(self, actor: u64) -> bool {
        match self {
            Owner::User(owner) => owner == actor,
            Owner::Anyone => true,
        }
    }

    /// Whether `actor` may operate the controls.
    pub fn allows(&self, actor: u64) -> (r: bool)
        ensures
            r == self.spec_allows(actor),
    {
        match self {
            Owner::User(owner) => *owner == actor,
            Owner::Anyone => true,
        }
    }
}

/// What a component interaction asks of the message.
#[derive(Clone, Copy, PartialEq, Eq, Structural, Debug)]
pub enum ComponentAction {
    /// One of the pagination buttons.
    Nav(PageChange),
    /// A control this message does not own.
    Other,
}

/// A component interaction delivered by the platform.
#[derive(Clone, Copy, PartialEq, Eq, Structural, Debug)]
pub struct ComponentEvent {
    pub message: MessageIdentity,
    pub actor: u64,
    pub action: ComponentAction,
}

/// A modal submission delivered by the platform: the text entered into a
/// "jump to page" form.
pub struct ModalEvent {
    pub message: MessageIdentity,
    pub actor: u64,
    pub input: String,
}

/// How an instance reacted to a component event.
#[derive(Clone, Copy, PartialEq, Eq, Structural, Debug)]
pub enum ComponentOutcome {
    /// The event was not for one of this message's controls; nothing changed.
    Ignore,
    /// State changed; the message must be re-rendered and edited.
    Update,
    /// The message is done; remove its controls and stop tracking it.
    Close,
}

/// Rendered content of one page.
pub struct BuildPage {
    pub description: String,
    pub footer: String,
}

/// One navigation control.
#[derive(Clone, Copy, PartialEq, Eq, Structural, Debug)]
pub struct NavButton {
    pub disabled: bool,
}

/// The control surface of a paginated message: four navigation buttons and
/// a "jump to page" control.
#[derive(Clone, Copy, PartialEq, Eq, Structural, Debug)]
pub struct ControlSurface {
    pub to_first: NavButton,
    pub to_previous: NavButton,
    pub to_next: NavButton,
    pub to_last: NavButton,
    pub jump: NavButton,
}

/// The control surface a cursor position calls for: backward controls are
/// disabled on the first page, forward controls on the last, and the jump
/// control when there is only one page.
pub open spec fn spec_pagination_controls(p: Pages) -> ControlSurface {
    ControlSurface {
        to_first: NavButton { disabled: p.index() == 0 },
        to_previous: NavButton { disabled: p.index() == 0 },
        to_next: NavButton { disabled: p.on_last_page() },
        to_last: NavButton { disabled: p.on_last_page() },
        jump: NavButton { disabled: p.spec_last_page() == 1 },
    }
}

/// Builds the control surface for the current cursor position. Every
/// pagination variant shares this builder.
pub fn pagination_controls(p: &Pages) -> (c: ControlSurface)
    requires
        p.wf(),
    ensures
        c == spec_pagination_controls(*p),
{
    let index = p.get_index();
    let last_page = p.last_page();
    let last_index = p.last_index();
    let at_first = index == 0;
    let at_last = index == last_index;
    ControlSurface {
        to_first: NavButton { disabled: at_first },
        to_previous: NavButton { disabled: at_first },
        to_next: NavButton { disabled: at_last },
        to_last: NavButton { disabled: at_last },
        jump: NavButton { disabled: last_page == 1 },
    }
}

/// The capability set every interactive message variant implements:
/// render the current page, render the control surface, and react to
/// component and modal events.
pub trait IActiveMessage: Sized {
    /// Payload well-formedness; holds for every value the library hands out.
    spec fn inv(&self) -> bool;

    /// The pagination cursor of this message.
    spec fn spec_pages(&self) -> Pages;

    /// Whether this instance has been closed; closed is terminal.
    spec fn spec_closed(&self) -> bool;

    /// Model of the description text the instance renders in its current
    /// state.
    spec fn spec_render(&self) -> Seq<char>;

    /// Model of the footer text the instance renders in its current state.
    spec fn spec_footer(&self) -> Seq<char>;

    /// This instance with only its cursor replaced by `p`. Event handling
    /// promises `final == old.with_pages(final cursor)`: an accepted event
    /// moves the cursor and touches nothing else of the payload.
    spec fn with_pages(self, p: Pages) -> Self;

    /// The cursor, for the router and the control-surface builder.
    fn pages(&self) -> (p: Pages)
        requires
            self.inv(),
        ensures
            p == self.spec_pages(),
            p.wf(),
    ;

    /// Renders the current page. Rendering mutates nothing, so calling it
    /// twice in the same state yields identical content.
    fn build_page(&self) -> (page: BuildPage)
        requires
            self.inv(),
        ensures
            page.description@ == self.spec_render(),
            page.footer@ == self.spec_footer(),
    ;

    /// The control surface for the current cursor position.
    fn build_components(&self) -> (c: ControlSurface)
        requires
            self.inv(),
        ensures
            c == spec_pagination_controls(self.spec_pages()),
    ;

    /// Reacts to a component action: a navigation button moves the cursor
    /// one page and asks for an update; a control this message does not own
    /// is ignored and changes nothing.
    fn handle_component(&mut self, action: ComponentAction) -> (out: ComponentOutcome)
        requires
            old(self).inv(),
            !old(self).spec_closed(),
        ensures
            final(self).inv(),
            !final(self).spec_closed(),
            *final(self) == old(self).with_pages(final(self).spec_pages()),
            final(self).spec_pages().per_page() == old(self).spec_pages().per_page(),
            final(self).spec_pages().total_items() == old(self).spec_pages().total_items(),
            match action {
                ComponentAction::Nav(change) => out == ComponentOutcome::Update
                    && final(self).spec_pages().index() == old(self).spec_pages().nav_index(change, 1),
                ComponentAction::Other => out == ComponentOutcome::Ignore
                    && *final(self) == *old(self),
            },
    ;

    /// Applies a "jump to page" modal submission. The input must be a
    /// decimal number naming an existing page; anything else is a
    /// validation error that leaves the cursor unchanged.
    fn handle_modal(&mut self, input: &str) -> (r: Result<(), PageError>)
        requires
            old(self).inv(),
            !old(self).spec_closed(),
        ensures
            final(self).inv(),
            !final(self).spec_closed(),
            *final(self) == old(self).with_pages(final(self).spec_pages()),
            final(self).spec_pages().per_page() == old(self).spec_pages().per_page(),
            final(self).spec_pages().total_items() == old(self).spec_pages().total_items(),
            match spec_parse_usize(input@) {
                Some(page) => if 1 <= page <= old(self).spec_pages().spec_last_page() {
                    r === Ok(()) && final(self).spec_pages().index() == (page - 1)
                        * old(self).spec_pages().per_page()
                } else {
                    r === Err(PageError::JumpOutOfRange) && *final(self) == *old(self)
                },
                None => r === Err(PageError::InvalidJumpInput) && *final(self) == *old(self),
            },
    ;

    /// Marks the instance closed; called when the registry replaces or
    /// retires the message. Closed is terminal.
    fn close(&mut self)
        requires
            old(self).inv(),
        ensures
            final(self).inv(),
            final(self).spec_closed(),
            final(self).spec_pages() == old(self).spec_pages(),
    ;
}

/// Law: rendering is deterministic in the message state — two renders of
/// one instance with no state change in between produce identical content.
pub proof fn lemma_render_idempotent<T: IActiveMessage>(m: T, a: BuildPage, b: BuildPage)
    requires
        a.description@ == m.spec_render(),
        a.footer@ == m.spec_footer(),
        b.description@ == m.spec_render(),
        b.footer@ == m.spec_footer(),
    ensures
        a.description@ == b.description@,
        a.footer@ == b.footer@,
{
}

/// Shared component handler: every pagination variant delegates its
/// component events here.
pub fn handle_pagination_component(pages: &mut Pages, action: ComponentAction) -> (out:
    ComponentOutcome)
    requires
        old(pages).wf(),
    ensures
        final(pages).wf(),
        final(pages).per_page() == old(pages).per_page(),
        final(pages).total_items() == old(pages).total_items(),
        match action {
            ComponentAction::Nav(change) => out == ComponentOutcome::Update
                && final(pages).index() == old(pages).nav_index(change, 1),
            ComponentAction::Other => out == ComponentOutcome::Ignore
                && *final(pages) == *old(pages),
        },
{
    match action {
        ComponentAction::Nav(change) => {
            pages.advance(change, 1);
            ComponentOutcome::Update
        },
        ComponentAction::Other => ComponentOutcome::Ignore,
    }
}

/// Shared modal handler: validates a "jump to page" submission and applies
/// it to the cursor.
pub fn handle_pagination_modal(pages: &mut Pages, input: &str) -> (r: Result<(), PageError>)
    requires
        old(pages).wf(),
    ensures
        final(pages).wf(),
        final(pages).per_page() == old(pages).per_page(),
        final(pages).total_items() == old(pages).total_items(),
        match spec_parse_usize(input@) {
            Some(page) => if 1 <= page <= old(pages).spec_last_page() {
                r === Ok(()) && final(pages).index() == (page - 1) * old(pages).per_page()
            } else {
                r === Err(PageError::JumpOutOfRange) && *final(pages) == *old(pages)
            },
            None => r === Err(PageError::InvalidJumpInput) && *final(pages) == *old(pages),
        },
{
    match parse_usize(input) {
        Some(page) => pages.jump(page),
        None => Err(PageError::InvalidJumpInput),
    }
}

} // verus!
