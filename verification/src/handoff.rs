//! Background compute handoff: a single-producer/single-consumer slot for
//! one slowly computed page asset (a rendered chart, a composed image).
//!
//! The slot is written at most once — the producer resolves it with bytes,
//! marks it failed, or abandons it — and consumed at most once: consuming
//! takes the slot. A consumer never blocks: a pending slot yields interim
//! content, a failed or abandoned slot yields the fallback, and an
//! artifact produced for another cursor position is discarded unseen.

use vstd::prelude::*;

verus! {

/// What the producer has done with the slot so far.
pub enum ArtifactState {
    /// Nothing yet; the computation is still running.
    Pending,
    /// The computed bytes, written exactly once.
    Ready(Vec<u8>),
    /// The producer failed with a typed reason; terminal.
    Failed,
    /// The producer was dropped without writing; terminal.
    Abandoned,
}

/// A single-use handoff slot, stamped with the cursor offset whose page it
/// was produced for.
pub struct ArtifactSlot {
    state: ArtifactState,
    for_index: usize,
}

/// What consuming the slot tells the page renderer to show.
pub enum ConsumeOutcome {
    /// The artifact was produced for another cursor position: it is
    /// discarded and never displayed.
    DiscardedStale,
    /// Still pending: show the interim content; the message is edited in
    /// place once the artifact resolves.
    Interim,
    /// The artifact, shown for the page it was produced for.
    Content(Vec<u8>),
    /// The producer failed or abandoned the slot: render the textual
    /// fallback now rather than leave a dangling pending state.
    Fallback,
}

impl ArtifactSlot {
    /// The cursor offset this slot's artifact is for.
    pub closed spec fn spec_for_index(self) -> int {
        self.for_index as int
    }

    /// Whether the producer has not written yet.
    pub closed spec fn is_pending(self) -> bool {
        self.state is Pending
    }

    /// Whether the producer resolved the slot with bytes.
    pub closed spec fn is_ready(self) -> bool {
        self.state is Ready
    }

    /// Whether the producer failed.
    pub closed spec fn is_failed(self) -> bool {
        self.state is Failed
    }

    /// Whether the producer abandoned the slot.
    pub closed spec fn is_abandoned(self) -> bool {
        self.state is Abandoned
    }

    /// The resolved bytes of a ready slot.
    pub closed spec fn spec_content(self) -> Seq<u8> {
        self.state->Ready_0@
    }

    /// Whether the producer has not written yet.
    pub fn pending(&self) -> (r: bool)
        ensures
            r == self.is_pending(),
    {
        matches!(self.state, ArtifactState::Pending)
    }

    /// Creates a pending slot for the page at cursor offset `for_index`.
    pub fn new(for_index: usize) -> (slot: ArtifactSlot)
        ensures
            slot.is_pending(),
            slot.spec_for_index() == for_index,
    {
        ArtifactSlot { state: ArtifactState::Pending, for_index }
    }

    /// Resolves the slot with the computed bytes. A slot is written at most
    /// once: only a pending slot can be resolved.
    pub fn resolve(&mut self, bytes: Vec<u8>)
        requires
            old(self).is_pending(),
        ensures
            final(self).is_ready(),
            final(self).spec_content() == bytes@,
            final(self).spec_for_index() == old(self).spec_for_index(),
    {
        self.state = ArtifactState::Ready(bytes);
    }

    /// Marks the computation failed; terminal, and only from pending.
    pub fn fail(&mut self)
        requires
            old(self).is_pending(),
        ensures
            final(self).is_failed(),
            final(self).spec_for_index() == old(self).spec_for_index(),
    {
        self.state = ArtifactState::Failed;
    }

    /// Records that the producer was dropped without writing, so consumers
    /// see a terminal "unavailable" signal instead of waiting forever.
    pub fn abandon(&mut self)
        requires
            old(self).is_pending(),
        ensures
            final(self).is_abandoned(),
            final(self).spec_for_index() == old(self).spec_for_index(),
    {
        self.state = ArtifactState::Abandoned;
    }
}

/// A slot is always in exactly one of the four states.
pub proof fn lemma_state_partition(slot: ArtifactSlot)
    ensures
        slot.is_pending() || slot.is_ready() || slot.is_failed() || slot.is_abandoned(),
        slot.is_pending() ==> !slot.is_ready() && !slot.is_failed() && !slot.is_abandoned(),
        slot.is_ready() ==> !slot.is_pending() && !slot.is_failed() && !slot.is_abandoned(),
        slot.is_failed() ==> !slot.is_pending() && !slot.is_ready() && !slot.is_abandoned(),
        slot.is_abandoned() ==> !slot.is_pending() && !slot.is_ready() && !slot.is_failed(),
{
}

/// Consumes the slot for the page currently at cursor offset
/// `current_index`. Consuming takes the slot, so an artifact is displayed
/// at most once; one produced for another cursor position is discarded.
pub fn consume(slot: ArtifactSlot, current_index: usize) -> (r: ConsumeOutcome)
    ensures
        slot.spec_for_index() != current_index ==> r is DiscardedStale,
        slot.spec_for_index() == current_index && slot.is_pending() ==> r is Interim,
        slot.spec_for_index() == current_index && slot.is_ready() ==> (r matches
            ConsumeOutcome::Content(bytes) && bytes@ == slot.spec_content()),
        slot.spec_for_index() == current_index && (slot.is_failed() || slot.is_abandoned())
            ==> r is Fallback,
{
    if slot.for_index != current_index {
        return ConsumeOutcome::DiscardedStale;
    }
    match slot.state {
        ArtifactState::Pending => ConsumeOutcome::Interim,
        ArtifactState::Ready(bytes) => ConsumeOutcome::Content(bytes),
        ArtifactState::Failed => ConsumeOutcome::Fallback,
        ArtifactState::Abandoned => ConsumeOutcome::Fallback,
    }
}

/// Law: an artifact is displayed only for the exact cursor position it
/// was produced for, and only once resolved. Any outcome that meets the
/// contract of `consume` shows content only from a ready slot stamped with
/// the current offset — never stale, pending, failed, or abandoned content.
pub proof fn lemma_artifact_display_safety(
    slot: ArtifactSlot,
    current_index: usize,
    r: ConsumeOutcome,
)
    requires
        slot.spec_for_index() != current_index ==> r is DiscardedStale,
        slot.spec_for_index() == current_index && slot.is_pending() ==> r is Interim,
        slot.spec_for_index() == current_index && (slot.is_failed() || slot.is_abandoned())
            ==> r is Fallback,
    ensures
        r is Content ==> slot.spec_for_index() == current_index && slot.is_ready(),
{
}

} // verus!
