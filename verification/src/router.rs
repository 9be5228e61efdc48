//! Component/modal router: dispatches a platform event to the owning
//! active message, enforces ownership, applies the outcome, and resets the
//! idle deadline on every accepted event.
//!
//! Every per-event failure is absorbed here and reported as an outcome the
//! caller can answer with an ephemeral notice; routing never leaves the
//! registry in a bad state.

use crate::active::{
    BuildPage, ComponentAction, ComponentEvent, ComponentOutcome, ControlSurface, IActiveMessage,
    MessageIdentity, ModalEvent, spec_pagination_controls,
};
use crate::numbers::spec_parse_usize;
use crate::pages::PageError;
use crate::registry::{ActiveMessageEntry, ActiveMessages};
use vstd::prelude::*;

verus! {

/// What routing one event came to; the caller performs the matching
/// platform edit or ephemeral reply.
pub enum RouteOutcome {
    /// No live entry for the event's message — the control is stale, not an
    /// error. Reply "this interaction is no longer active".
    Stale,
    /// The actor does not own the message. Reply "not your message";
    /// nothing was mutated.
    NotOwner,
    /// The instance ignored the event; nothing changed.
    Ignored,
    /// State changed: edit the message to this content and these controls.
    Updated(BuildPage, ControlSurface),
    /// The message is done: its entry was removed; disable its controls.
    Closed,
    /// A jump submission was rejected: show the validation error to the
    /// actor; the cursor is unchanged.
    Rejected(PageError),
}

/// What the router guarantees for the entry at index `i` after an accepted
/// navigation event moved its cursor by `change`: only that entry changed,
/// its deadline was reset to `now`, and the rendered content and controls
/// reflect the moved cursor.
pub open spec fn spec_nav_applied<T: IActiveMessage>(
    prior: Seq<ActiveMessageEntry<T>>,
    post: Seq<ActiveMessageEntry<T>>,
    i: int,
    change: crate::pages::PageChange,
    now: u64,
    page: BuildPage,
    controls: ControlSurface,
) -> bool {
    &&& post.len() == prior.len()
    &&& forall|j: int| 0 <= j < prior.len() && j != i ==> post[j] == #[trigger] prior[j]
    &&& post[i].message == prior[i].message
    &&& post[i].owner == prior[i].owner
    &&& post[i].created_at == prior[i].created_at
    &&& post[i].expires_after == prior[i].expires_after
    &&& post[i].last_interaction_at == now
    &&& post[i].instance.spec_pages().index() == prior[i].instance.spec_pages().nav_index(
        change,
        1,
    )
    &&& post[i].instance.spec_pages().per_page() == prior[i].instance.spec_pages().per_page()
    &&& post[i].instance.spec_pages().total_items()
        == prior[i].instance.spec_pages().total_items()
    &&& page.description@ == post[i].instance.spec_render()
    &&& page.footer@ == post[i].instance.spec_footer()
    &&& controls == spec_pagination_controls(post[i].instance.spec_pages())
}

/// Routes a component interaction.
///
/// An event for an unknown or expired message mutates nothing and is
/// answered as stale; a non-owner event mutates nothing; an owner's
/// navigation event moves the cursor, resets the idle deadline, and hands
/// back the re-rendered page; a control the message does not own is
/// ignored.
pub fn route_component<T: IActiveMessage>(
    registry: &mut ActiveMessages<T>,
    event: &ComponentEvent,
    now: u64,
) -> (out: RouteOutcome)
    requires
        old(registry).inv(),
    ensures
        final(registry).inv(),
        !old(registry).contains_id(event.message) ==> (out is Stale && final(registry).entries()
            == old(registry).entries()),
        forall|i: int|
            0 <= i < old(registry).entries().len() && (#[trigger] old(
                registry,
            ).entries()[i]).message == event.message ==> {
                let entry = old(registry).entries()[i];
                &&& entry.spec_expired(now) ==> (out is Stale && final(registry).entries() == old(
                    registry,
                ).entries())
                &&& !entry.spec_expired(now) && !entry.owner.spec_allows(event.actor) ==> (out
                    is NotOwner && final(registry).entries() == old(registry).entries())
                &&& !entry.spec_expired(now) && entry.owner.spec_allows(event.actor)
                    ==> match event.action {
                    ComponentAction::Nav(change) => out matches RouteOutcome::Updated(
                        page,
                        controls,
                    ) && spec_nav_applied(
                        old(registry).entries(),
                        final(registry).entries(),
                        i,
                        change,
                        now,
                        page,
                        controls,
                    ),
                    ComponentAction::Other => out is Ignored && final(registry).entries() == old(
                        registry,
                    ).entries(),
                }
            },
{
    let idx = match registry.find(event.message) {
        Some(idx) => idx,
        None => {
            return RouteOutcome::Stale;
        },
    };
    if registry.entries[idx].expired(now) {
        // Raced with the sweeper's deadline: the control is stale; the
        // sweeper retires the entry.
        return RouteOutcome::Stale;
    }
    if !registry.entries[idx].owner.allows(event.actor) {
        return RouteOutcome::NotOwner;
    }
    let ghost prior = registry.entries();
    let mut entry = registry.entries.remove(idx);
    let outcome = entry.instance.handle_component(event.action);
    match outcome {
        ComponentOutcome::Ignore => {
            registry.entries.insert(idx, entry);
            proof {
                assert(registry.entries() =~= prior);
            }
            RouteOutcome::Ignored
        },
        ComponentOutcome::Update => {
            entry.last_interaction_at = now;
            let page = entry.instance.build_page();
            let controls = entry.instance.build_components();
            registry.entries.insert(idx, entry);
            proof {
                assert(forall|j: int|
                    0 <= j < prior.len() && j != idx ==> registry.entries()[j] == #[trigger] prior[j]);
            }
            RouteOutcome::Updated(page, controls)
        },
        ComponentOutcome::Close => {
            // The instance declared itself done; its entry stays removed.
            RouteOutcome::Closed
        },
    }
}

/// Routes a "jump to page" modal submission.
///
/// Unknown or expired messages are stale, non-owners mutate nothing, a
/// malformed or out-of-range page number is a validation error that leaves
/// the cursor unchanged, and a valid number jumps to that page, resets the
/// idle deadline, and hands back the re-rendered page.
pub fn route_modal<T: IActiveMessage>(
    registry: &mut ActiveMessages<T>,
    event: &ModalEvent,
    now: u64,
) -> (out: RouteOutcome)
    requires
        old(registry).inv(),
    ensures
        final(registry).inv(),
        !old(registry).contains_id(event.message) ==> (out is Stale && final(registry).entries()
            == old(registry).entries()),
        forall|i: int|
            0 <= i < old(registry).entries().len() && (#[trigger] old(
                registry,
            ).entries()[i]).message == event.message ==> {
                let entry = old(registry).entries()[i];
                let pages = entry.instance.spec_pages();
                &&& entry.spec_expired(now) ==> (out is Stale && final(registry).entries() == old(
                    registry,
                ).entries())
                &&& !entry.spec_expired(now) && !entry.owner.spec_allows(event.actor) ==> (out
                    is NotOwner && final(registry).entries() == old(registry).entries())
                &&& !entry.spec_expired(now) && entry.owner.spec_allows(event.actor)
                    ==> match spec_parse_usize(event.input@) {
                    Some(page_no) => if 1 <= page_no <= pages.spec_last_page() {
                        {
                            &&& out matches RouteOutcome::Updated(page, controls) && page.description@
                                == final(registry).entries()[i].instance.spec_render()
                                && page.footer@
                                == final(registry).entries()[i].instance.spec_footer()
                                && controls == spec_pagination_controls(
                                final(registry).entries()[i].instance.spec_pages(),
                            )
                            &&& final(registry).entries().len()
                                == old(registry).entries().len()
                            &&& forall|j: int|
                                0 <= j < old(registry).entries().len() && j != i
                                    ==> final(registry).entries()[j]
                                    == #[trigger] old(registry).entries()[j]
                            &&& final(registry).entries()[i].last_interaction_at == now
                            &&& final(registry).entries()[i].instance.spec_pages().index() == (
                            page_no - 1) * pages.per_page()
                        }
                    } else {
                        out matches RouteOutcome::Rejected(e) && e == PageError::JumpOutOfRange
                            && final(registry).entries() == old(registry).entries()
                    },
                    None => out matches RouteOutcome::Rejected(e) && e
                        == PageError::InvalidJumpInput && final(registry).entries() == old(
                        registry,
                    ).entries(),
                }
            },
{
    let idx = match registry.find(event.message) {
        Some(idx) => idx,
        None => {
            return RouteOutcome::Stale;
        },
    };
    if registry.entries[idx].expired(now) {
        return RouteOutcome::Stale;
    }
    if !registry.entries[idx].owner.allows(event.actor) {
        return RouteOutcome::NotOwner;
    }
    let ghost prior = registry.entries();
    let mut entry = registry.entries.remove(idx);
    match entry.instance.handle_modal(event.input.as_str()) {
        Ok(()) => {
            entry.last_interaction_at = now;
            let page = entry.instance.build_page();
            let controls = entry.instance.build_components();
            registry.entries.insert(idx, entry);
            proof {
                assert(forall|j: int|
                    0 <= j < prior.len() && j != idx ==> registry.entries()[j] == #[trigger] prior[j]);
            }
            RouteOutcome::Updated(page, controls)
        },
        Err(e) => {
            registry.entries.insert(idx, entry);
            proof {
                assert(registry.entries() =~= prior);
            }
            RouteOutcome::Rejected(e)
        },
    }
}

/// Applies the router's failure policy after the caller's attempt to
/// produce or deliver a page failed outside this library.
///
/// A transient failure (an upstream hiccup) keeps the entry alive — the
/// next interaction retries naturally; a terminal failure (the backing
/// data is permanently gone) closes the message: its entry is removed and
/// its controls must be disabled.
pub fn route_render_failure<T: IActiveMessage>(
    registry: &mut ActiveMessages<T>,
    message: MessageIdentity,
    terminal: bool,
) -> (out: RouteOutcome)
    requires
        old(registry).inv(),
    ensures
        final(registry).inv(),
        !terminal ==> (out is Ignored && final(registry).entries() == old(registry).entries()),
        terminal ==> (out is Closed && !final(registry).contains_id(message)),
        terminal && !old(registry).contains_id(message) ==> final(registry).entries() == old(
            registry,
        ).entries(),
{
    if terminal {
        let removed = registry.remove(message);
        RouteOutcome::Closed
    } else {
        RouteOutcome::Ignored
    }
}

} // verus!
