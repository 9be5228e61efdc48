//! Garbage collection bookkeeping for downloaded map files: unranked maps
//! are queued for deletion once their command is done with them.

use crate::osu::RankStatus;
use vstd::prelude::*;

verus! {

/// A deferred deletion: holds the map id of an unranked map, and nothing
/// for maps whose files are worth keeping.
pub struct GarbageCollectMap(pub Option<u32>);

/// Whether files of maps with this status stay on disk: ranked, loved, and
/// approved maps are stable and worth caching.
pub open spec fn spec_keeps_file(status: RankStatus) -> bool {
    status is Ranked || status is Loved || status is Approved
}

impl GarbageCollectMap {
    /// Records the map for deletion exactly when its status says the file
    /// may still change.
    pub fn new(status: RankStatus, map_id: u32) -> (r: GarbageCollectMap)
        ensures
            spec_keeps_file(status) ==> r.0 is None,
            !spec_keeps_file(status) ==> r.0 === Some(map_id),
    {
        match status {
            RankStatus::Ranked | RankStatus::Loved | RankStatus::Approved => GarbageCollectMap(
                None,
            ),
            _ => GarbageCollectMap(Some(map_id)),
        }
    }

    /// Queues the recorded map id, if any, in the shared collection list;
    /// each id is queued at most once.
    pub fn execute(self, queue: &mut Vec<u32>)
        requires
            forall|i: int, j: int|
                0 <= i < j < old(queue)@.len() ==> old(queue)@[i] != old(queue)@[j],
        ensures
            forall|i: int, j: int|
                0 <= i < j < final(queue)@.len() ==> final(queue)@[i] != final(queue)@[j],
            match self.0 {
                Some(map_id) => if old(queue)@.contains(map_id) {
                    final(queue)@ == old(queue)@
                } else {
                    final(queue)@ == old(queue)@.push(map_id)
                },
                None => final(queue)@ == old(queue)@,
            },
    {
        if let Some(map_id) = self.0 {
            if !contains_u32(queue, map_id) {
                queue.push(map_id);
            }
        }
    }
}

/// Whether `values` holds `x`.
fn contains_u32(values: &Vec<u32>, x: u32) -> (r: bool)
    ensures
        r == values@.contains(x),
{
    let n = values.len();
    let mut i: usize = 0;
    while i < n
        invariant
            0 <= i <= n,
            n == values@.len(),
            forall|k: int| 0 <= k < i ==> values@[k] != x,
        decreases n - i,
    {
        if values[i] == x {
            return true;
        }
        i += 1;
    }
    proof {
        assert(!values@.contains(x));
    }
    false
}

} // verus!
