//! Registry of live interactive messages.
//!
//! One table maps each posted message's identity to its live state: the
//! instance that renders it, who owns its controls, and when it expires.
//! At most one entry is live per identity; replacing a message closes the
//! previous instance first, and removal is idempotent. The registry is an
//! explicitly constructed value handed to the router and the sweeper;
//! there is no ambient global table.

use crate::active::{
    BuildPage, ControlSurface, IActiveMessage, MessageIdentity, Owner, spec_pagination_controls,
};
use vstd::prelude::*;

verus! {

/// One live interactive message: its identity, its owner, its deadlines,
/// and the instance that renders it.
pub struct ActiveMessageEntry<T> {
    pub message: MessageIdentity,
    pub owner: Owner,
    pub created_at: u64,
    pub last_interaction_at: u64,
    pub expires_after: u64,
    pub instance: T,
}

impl<T> ActiveMessageEntry<T> {
    /// Whether the entry has sat idle past its deadline at time `now`:
    /// more than `expires_after` time units passed since the last
    /// interaction.
    pub open spec fn spec_expired(self, now: u64) -> bool {
        self.last_interaction_at + self.expires_after < now
    }

    /// Expiry test, safe against clocks that stand before the last
    /// interaction.
    pub fn expired(&self, now: u64) -> (r: bool)
        ensures
            r == self.spec_expired(now),
    {
        now > self.last_interaction_at && now - self.last_interaction_at > self.expires_after
    }
}

/// The table of live interactive messages, keyed by message identity.
///
/// The entry vector is exposed for inspection; mutate it only through the
/// methods here and the router, which keep the registry invariant.
pub struct ActiveMessages<T> {
    pub entries: Vec<ActiveMessageEntry<T>>,
}

impl<T: IActiveMessage> ActiveMessages<T> {
    /// The live entries, oldest first.
    pub open spec fn entries(self) -> Seq<ActiveMessageEntry<T>> {
        self.entries@
    }

    /// Whether an entry for `id` is live.
    pub open spec fn contains_id(self, id: MessageIdentity) -> bool {
        exists|i: int|
            0 <= i < self.entries().len() && (#[trigger] self.entries()[i]).message == id
    }

    /// Registry invariant: identities are unique, and every live instance
    /// is well-formed and not closed.
    pub open spec fn inv(self) -> bool {
        &&& forall|i: int, j: int|
            0 <= i < j < self.entries().len() ==> (#[trigger] self.entries()[i]).message != (
            #[trigger] self.entries()[j]).message
        &&& forall|i: int|
            0 <= i < self.entries().len() ==> (#[trigger] self.entries()[i]).instance.inv() && !self.entries()[i].instance.spec_closed()
    }

    /// Creates an empty registry.
    pub fn new() -> (r: ActiveMessages<T>)
        ensures
            r.inv(),
            r.entries().len() == 0,
    {
        ActiveMessages { entries: Vec::new() }
    }

    /// Number of live entries.
    pub fn len(&self) -> (n: usize)
        ensures
            n == self.entries().len(),
    {
        self.entries.len()
    }

    /// Index of the live entry for `id`; `None` exactly when no entry for
    /// `id` is live.
    pub fn find(&self, id: MessageIdentity) -> (r: Option<usize>)
        ensures
            match r {
                Some(i) => i < self.entries().len() && self.entries()[i as int].message == id,
                None => !self.contains_id(id),
            },
    {
        let n = self.entries.len();
        let mut i: usize = 0;
        while i < n
            invariant
                0 <= i <= n,
                n == self.entries().len(),
                forall|k: int| 0 <= k < i ==> (#[trigger] self.entries()[k]).message != id,
            decreases n - i,
        {
            if self.entries[i].message == id {
                return Some(i);
            }
            i += 1;
        }
        None
    }

    /// Stores a new live entry for `message`, owned by `owner`, created and
    /// last touched at `now`, expiring after `expires_after` of idleness.
    ///
    /// If an entry for the same identity is already live it is retired
    /// first — its instance receives a close and is handed back so the
    /// caller can disable its controls — so there are never two live
    /// entries for one message.
    pub fn begin(
        &mut self,
        instance: T,
        message: MessageIdentity,
        owner: Owner,
        now: u64,
        expires_after: u64,
    ) -> (replaced: Option<T>)
        requires
            old(self).inv(),
            instance.inv(),
            !instance.spec_closed(),
        ensures
            final(self).inv(),
            final(self).contains_id(message),
            final(self).entries().len() >= 1,
            final(self).entries().last() == (ActiveMessageEntry {
                message,
                owner,
                created_at: now,
                last_interaction_at: now,
                expires_after,
                instance,
            }),
            match replaced {
                Some(inst) => old(self).contains_id(message) && inst.spec_closed() && exists|
                    i: int,
                |
                    0 <= i < old(self).entries().len() && (#[trigger] old(
                        self,
                    ).entries()[i]).message == message && inst.spec_pages() == old(
                        self,
                    ).entries()[i].instance.spec_pages() && final(self).entries().drop_last()
                        == old(self).entries().remove(i),
                None => !old(self).contains_id(message) && final(self).entries().drop_last()
                    == old(self).entries(),
            },
    {
        let replaced = match self.find(message) {
            Some(i) => {
                let mut entry = self.entries.remove(i);
                entry.instance.close();
                proof {
                    // Identities were unique, so none of the kept entries
                    // carries the replaced identity.
                    assert(forall|k: int|
                        0 <= k < self.entries().len() ==> (#[trigger] self.entries()[k]).message
                            != message);
                }
                Some(entry.instance)
            },
            None => None,
        };
        let ghost kept = self.entries();
        let entry = ActiveMessageEntry {
            message,
            owner,
            created_at: now,
            last_interaction_at: now,
            expires_after,
            instance,
        };
        self.entries.push(entry);
        proof {
            assert(self.entries().drop_last() =~= kept);
        }
        replaced
    }

    /// Resets the idle deadline of the entry for `id`; called on every
    /// accepted event. Returns whether a live entry was found; nothing else
    /// of the entry changes.
    pub fn touch(&mut self, id: MessageIdentity, now: u64) -> (r: bool)
        requires
            old(self).inv(),
        ensures
            final(self).inv(),
            r == old(self).contains_id(id),
            !r ==> *final(self) == *old(self),
            r ==> exists|i: int|
                0 <= i < old(self).entries().len() && (#[trigger] old(
                    self,
                ).entries()[i]).message == id && final(self).entries() == old(
                    self,
                ).entries().update(
                    i,
                    (ActiveMessageEntry { last_interaction_at: now, ..old(self).entries()[i] }),
                ),
    {
        match self.find(id) {
            Some(i) => {
                let ghost prior = self.entries();
                let mut entry = self.entries.remove(i);
                entry.last_interaction_at = now;
                self.entries.insert(i, entry);
                proof {
                    assert(self.entries() =~= prior.update(
                        i as int,
                        (ActiveMessageEntry { last_interaction_at: now, ..prior[i as int] }),
                    ));
                }
                true
            },
            None => false,
        }
    }

    /// Removes and returns the live entry for `id`. Removal is idempotent:
    /// removing an absent identity changes nothing and returns `None`.
    pub fn remove(&mut self, id: MessageIdentity) -> (removed: Option<ActiveMessageEntry<T>>)
        requires
            old(self).inv(),
        ensures
            final(self).inv(),
            !final(self).contains_id(id),
            match removed {
                Some(e) => e.message == id && old(self).contains_id(id) && exists|i: int|
                    0 <= i < old(self).entries().len() && #[trigger] old(self).entries()[i] == e
                        && final(self).entries() == old(self).entries().remove(i),
                None => !old(self).contains_id(id) && *final(self) == *old(self),
            },
    {
        match self.find(id) {
            Some(i) => {
                let entry = self.entries.remove(i);
                proof {
                    assert(forall|k: int|
                        0 <= k < self.entries().len() ==> (#[trigger] self.entries()[k]).message
                            != id);
                }
                Some(entry)
            },
            None => None,
        }
    }

    /// Removes every entry idle past its deadline at `now` and returns
    /// them, oldest first, so the caller can disable their controls. Kept
    /// and removed entries partition the table: an entry is removed exactly
    /// when it had expired.
    pub fn sweep(&mut self, now: u64) -> (removed: Vec<ActiveMessageEntry<T>>)
        requires
            old(self).inv(),
        ensures
            final(self).inv(),
            final(self).entries() == old(self).entries().filter(
                |e: ActiveMessageEntry<T>| !e.spec_expired(now),
            ),
            removed@ == old(self).entries().filter(
                |e: ActiveMessageEntry<T>| e.spec_expired(now),
            ),
    {
        let ghost prior = self.entries();
        let ghost keep_pred = |e: ActiveMessageEntry<T>| !e.spec_expired(now);
        let ghost drop_pred = |e: ActiveMessageEntry<T>| e.spec_expired(now);
        let mut olds: Vec<ActiveMessageEntry<T>> = Vec::new();
        core::mem::swap(&mut self.entries, &mut olds);
        let mut removed: Vec<ActiveMessageEntry<T>> = Vec::new();
        let ghost total = prior.len();
        let ghost k: int = 0;
        proof {
            assert(prior.take(0).filter(keep_pred) =~= Seq::<
                ActiveMessageEntry<T>,
            >::empty().filter(keep_pred));
            assert(prior.take(0) =~= Seq::<ActiveMessageEntry<T>>::empty());
            reveal(Seq::filter);
        }
        while olds.len() > 0
            invariant
                0 <= k <= total,
                total == prior.len(),
                olds@ =~= prior.skip(k),
                self.entries() =~= prior.take(k).filter(keep_pred),
                removed@ =~= prior.take(k).filter(drop_pred),
                keep_pred == (|e: ActiveMessageEntry<T>| !e.spec_expired(now)),
                drop_pred == (|e: ActiveMessageEntry<T>| e.spec_expired(now)),
                // kept entries come from the prior table, with ids unique
                forall|a: int|
                    0 <= a < self.entries().len() ==> exists|j: int|
                        0 <= j < k && #[trigger] self.entries()[a] == prior[j],
                forall|a: int, b: int|
                    0 <= a < b < self.entries().len() ==> (#[trigger] self.entries()[a]).message
                        != (#[trigger] self.entries()[b]).message,
                forall|a: int|
                    0 <= a < self.entries().len() ==> (#[trigger] self.entries()[a]).instance.inv()
                        && !self.entries()[a].instance.spec_closed(),
                forall|i: int, j: int|
                    0 <= i < j < prior.len() ==> (#[trigger] prior[i]).message != (
                    #[trigger] prior[j]).message,
                forall|i: int|
                    0 <= i < prior.len() ==> (#[trigger] prior[i]).instance.inv()
                        && !prior[i].instance.spec_closed(),
            decreases olds.len(),
        {
            let entry = olds.remove(0);
            proof {
                assert(entry == prior[k]);
                assert(prior.take(k + 1).drop_last() =~= prior.take(k));
                assert(prior.take(k + 1).last() == prior[k]);
                reveal(Seq::filter);
                assert(olds@ =~= prior.skip(k + 1));
            }
            if entry.expired(now) {
                removed.push(entry);
            } else {
                proof {
                    // The id of the incoming entry differs from every kept
                    // one: each kept entry stems from an earlier index.
                    assert(forall|a: int|
                        0 <= a < self.entries().len() ==> (#[trigger] self.entries()[a]).message
                            != prior[k].message);
                }
                self.entries.push(entry);
            }
            proof {
                k = k + 1;
            }
        }
        proof {
            assert(prior.take(total as int) =~= prior);
        }
        removed
    }
}

/// Number of live entries carrying identity `id`.
pub open spec fn spec_count_id<T: IActiveMessage>(
    s: Seq<ActiveMessageEntry<T>>,
    id: MessageIdentity,
) -> int {
    s.filter(|e: ActiveMessageEntry<T>| e.message == id).len() as int
}

/// Counting helper: among entries with pairwise distinct identities, an
/// identity that occurs occurs exactly once.
proof fn lemma_unique_ids_count<T: IActiveMessage>(s: Seq<ActiveMessageEntry<T>>, id: MessageIdentity)
    requires
        forall|i: int, j: int|
            0 <= i < j < s.len() ==> (#[trigger] s[i]).message != (#[trigger] s[j]).message,
    ensures
        spec_count_id(s, id) == if exists|i: int| 0 <= i < s.len() && (#[trigger] s[i]).message
            == id {
            1int
        } else {
            0int
        },
    decreases s.len(),
{
    reveal(Seq::filter);
    if s.len() > 0 {
        let d = s.drop_last();
        lemma_unique_ids_count(d, id);
        if s.last().message == id {
            assert(forall|i: int| 0 <= i < d.len() ==> (#[trigger] d[i]).message != id);
            assert(spec_count_id(d, id) == 0);
        } else {
            if exists|i: int| 0 <= i < s.len() && (#[trigger] s[i]).message == id {
                let w = choose|i: int| 0 <= i < s.len() && (#[trigger] s[i]).message == id;
                assert(w < d.len() && d[w] == s[w]);
                assert(exists|i: int| 0 <= i < d.len() && (#[trigger] d[i]).message == id);
            }
            if exists|i: int| 0 <= i < d.len() && (#[trigger] d[i]).message == id {
                let w = choose|i: int| 0 <= i < d.len() && (#[trigger] d[i]).message == id;
                assert(s[w] == d[w]);
                assert(exists|i: int| 0 <= i < s.len() && (#[trigger] s[i]).message == id);
            }
        }
    }
}

/// Law: a registry holding an entry for `id` holds exactly one live entry
/// for it. Together with the contract of `begin` — which retires and
/// closes the previous instance before storing the new one — two
/// sequential `begin` calls with one message identity leave exactly one
/// live entry, and the first instance received a close before removal.
pub proof fn lemma_one_live_entry<T: IActiveMessage>(
    registry: ActiveMessages<T>,
    id: MessageIdentity,
)
    requires
        registry.inv(),
        registry.contains_id(id),
    ensures
        spec_count_id(registry.entries(), id) == 1,
{
    lemma_unique_ids_count(registry.entries(), id);
}

/// The single entry point command code uses to hand an interactive listing
/// to this core: renders the first page and its controls, stores the
/// instance, and reports the instance it replaced, if any, already closed.
pub fn begin_pagination<T: IActiveMessage>(
    registry: &mut ActiveMessages<T>,
    instance: T,
    message: MessageIdentity,
    owner: Owner,
    now: u64,
    expires_after: u64,
) -> (r: (BuildPage, ControlSurface, Option<T>))
    requires
        old(registry).inv(),
        instance.inv(),
        !instance.spec_closed(),
    ensures
        final(registry).inv(),
        final(registry).contains_id(message),
        r.0.description@ == instance.spec_render(),
        r.0.footer@ == instance.spec_footer(),
        r.1 == spec_pagination_controls(instance.spec_pages()),
        final(registry).entries().last() == (ActiveMessageEntry {
            message,
            owner,
            created_at: now,
            last_interaction_at: now,
            expires_after,
            instance,
        }),
        (r.2 matches Some(inst) ==> inst.spec_closed() && old(registry).contains_id(message)),
        (r.2 is None ==> !old(registry).contains_id(message)),
{
    let page = instance.build_page();
    let controls = instance.build_components();
    let replaced = registry.begin(instance, message, owner, now, expires_after);
    (page, controls, replaced)
}

} // verus!
