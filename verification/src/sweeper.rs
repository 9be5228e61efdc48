//! Lifecycle sweeper: retires interactive messages that sat idle past
//! their deadline.
//!
//! The sweeper runs on a fixed, configurable interval. Each tick removes
//! every expired entry from the registry and hands the removed entries
//! back so the caller can disable their controls on the platform — a
//! best-effort edit whose failure does not block removal.

use crate::active::IActiveMessage;
use crate::registry::{ActiveMessageEntry, ActiveMessages};
use vstd::prelude::*;

verus! {

/// Relies on time's `OffsetDateTime::now_utc` and `unix_timestamp`: reads
/// the system clock as Unix seconds. Nothing is promised of the reading.
#[verifier::external_body]
fn now_unix_seconds() -> i64 {
    time::OffsetDateTime::now_utc().unix_timestamp()
}

/// The current time as Unix seconds, clamped to zero for clocks standing
/// before the epoch.
pub fn unix_now() -> u64 {
    let t = now_unix_seconds();
    if t < 0 {
        0
    } else {
        t as u64
    }
}

/// The recurring sweep schedule: one sweep every `interval` seconds.
#[derive(Clone, Copy, PartialEq, Eq, Structural, Debug)]
pub struct Sweeper {
    interval: u64,
    next_due: u64,
}

impl Sweeper {
    /// The configured interval between sweeps, in seconds.
    pub closed spec fn spec_interval(self) -> u64 {
        self.interval
    }

    /// When the next sweep is due, in Unix seconds.
    pub closed spec fn spec_next_due(self) -> u64 {
        self.next_due
    }

    /// `a + b`, stopping at the largest representable time.
    pub open spec fn spec_add_sat(a: u64, b: u64) -> u64 {
        if a + b > u64::MAX {
            u64::MAX
        } else {
            (a + b) as u64
        }
    }

    /// Creates a schedule whose first sweep is due `interval` seconds
    /// after `now`.
    pub fn new(interval: u64, now: u64) -> (s: Sweeper)
        ensures
            s.spec_interval() == interval,
            s.spec_next_due() == Self::spec_add_sat(now, interval),
    {
        let next_due = if now > u64::MAX - interval {
            u64::MAX
        } else {
            now + interval
        };
        Sweeper { interval, next_due }
    }

    /// Whether a sweep is due at time `now`.
    pub fn due(&self, now: u64) -> (r: bool)
        ensures
            r == (now >= self.spec_next_due()),
    {
        now >= self.next_due
    }

    /// One scheduler step: if a sweep is due, retires every expired entry
    /// and moves the schedule one interval past `now`; otherwise nothing
    /// changes and no entry is touched.
    pub fn tick<T: IActiveMessage>(
        &mut self,
        registry: &mut ActiveMessages<T>,
        now: u64,
    ) -> (removed: Vec<ActiveMessageEntry<T>>)
        requires
            old(registry).inv(),
        ensures
            final(registry).inv(),
            now < old(self).spec_next_due() ==> (*final(self) == *old(self)
                && final(registry).entries() == old(registry).entries()
                && removed@.len() == 0),
            now >= old(self).spec_next_due() ==> {
                &&& final(self).spec_interval() == old(self).spec_interval()
                &&& final(self).spec_next_due() == Self::spec_add_sat(
                    now,
                    old(self).spec_interval(),
                )
                &&& final(registry).entries() == old(registry).entries().filter(
                    |e: ActiveMessageEntry<T>| !e.spec_expired(now),
                )
                &&& removed@ == old(registry).entries().filter(
                    |e: ActiveMessageEntry<T>| e.spec_expired(now),
                )
            },
    {
        if now < self.next_due {
            return Vec::new();
        }
        self.next_due = if now > u64::MAX - self.interval {
            u64::MAX
        } else {
            now + self.interval
        };
        registry.sweep(now)
    }
}

/// What one sweep at time `now` does to the entry table: the kept and the
/// removed entries are exactly the unexpired and the expired ones.
pub open spec fn spec_swept<T: IActiveMessage>(
    prior: Seq<ActiveMessageEntry<T>>,
    post: Seq<ActiveMessageEntry<T>>,
    removed: Seq<ActiveMessageEntry<T>>,
    now: u64,
) -> bool {
    &&& post == prior.filter(|e: ActiveMessageEntry<T>| !e.spec_expired(now))
    &&& removed == prior.filter(|e: ActiveMessageEntry<T>| e.spec_expired(now))
}

/// Sweeps the registry against the system clock: every entry expired at
/// the moment of the reading is removed and returned, every other entry is
/// kept untouched.
pub fn sweep_at_current_time<T: IActiveMessage>(registry: &mut ActiveMessages<T>) -> (removed: Vec<
    ActiveMessageEntry<T>,
>)
    requires
        old(registry).inv(),
    ensures
        final(registry).inv(),
        exists|now: u64|
            #[trigger] spec_swept(old(registry).entries(), final(registry).entries(), removed@, now),
{
    let now = unix_now();
    let removed = registry.sweep(now);
    proof {
        assert(spec_swept(old(registry).entries(), registry.entries(), removed@, now));
    }
    removed
}

} // verus!
