//! Rate limiting for location-changed notifications.
//!
//! Dragging or resizing a window makes the system emit location-changed
//! notifications far faster than any consumer can use them.  The debouncer
//! keeps, per window, the timestamp of the last processed location change,
//! plus one global "last target window" value.  An event is processed iff the
//! last target differs from its window or more than 50 milliseconds have
//! passed since that window's last processed event; processing updates both.

use vstd::prelude::*;
use std::collections::HashMap;

verus! {

broadcast use vstd::std_specs::hash::group_hash_axioms;

/// Milliseconds that must elapse before a location change for the same
/// target window is processed again.
pub const LOCATION_DEBOUNCE_MS: u64 = 50;

/// Per-window timestamp cache bounding the repeat-event processing rate.
pub struct LocationDebouncer {
    /// Timestamp (milliseconds) of the last processed location change, per window.
    pub dict: HashMap<isize, u64>,
    /// Window of the last processed location change, across all windows.
    pub last_target: isize,
    /// Latest timestamp this debouncer has been given; time never runs backwards.
    pub latest: u64,
}

impl LocationDebouncer {
    /// Every cached timestamp lies in the past.
    pub open spec fn wf(self) -> bool {
        forall|h: isize| self.dict@.contains_key(h) ==> self.dict@[h] <= self.latest
    }

    /// Whether a location change for `origin` arriving at `now` is processed:
    /// first event for this window, changed target window, or more than 50
    /// milliseconds since this window's last processed event.
    pub open spec fn spec_gate_open(self, origin: isize, now: u64) -> bool {
        if !self.dict@.contains_key(origin) {
            true
        } else {
            self.last_target != origin || now - self.dict@[origin] > LOCATION_DEBOUNCE_MS
        }
    }

    pub fn new() -> (r: Self)
        ensures
            r.wf(),
            r.dict@ == Map::<isize, u64>::empty(),
            r.last_target == 0isize,
            r.latest == 0u64,
    {
        LocationDebouncer { dict: HashMap::new(), last_target: 0, latest: 0 }
    }

    /// Applies the rate limit to one location-changed notification arriving
    /// at time `now` (milliseconds on a monotonic clock).  Returns whether
    /// the event is to be processed; on processing, records the timestamp
    /// for the window and makes it the last target.
    pub fn location_delay_completed(&mut self, origin: isize, now: u64) -> (processed: bool)
        requires
            old(self).wf(),
            now >= old(self).latest,
        ensures
            final(self).wf(),
            processed == old(self).spec_gate_open(origin, now),
            final(self).latest == now,
            processed ==> final(self).dict@ == old(self).dict@.insert(origin, now)
                && final(self).last_target == origin,
            !processed ==> final(self).dict@ == old(self).dict@
                && final(self).last_target == old(self).last_target,
    {
        let should_continue: bool = match self.dict.get(&origin) {
            Some(stamp) => self.last_target != origin || now - *stamp > LOCATION_DEBOUNCE_MS,
            None => true,
        };
        if should_continue {
            self.dict.insert(origin, now);
            self.last_target = origin;
        }
        self.latest = now;
        should_continue
    }
}

/// After a location change for `origin` was processed at time `t` (so the
/// cache maps `origin` to `t` and `origin` is the last target), a second
/// location change for `origin` within the 50 millisecond window is not
/// processed, while one for any other window is let through regardless of
/// elapsed time.
pub proof fn lemma_debounce_gate(
    s0: LocationDebouncer,
    s1: LocationDebouncer,
    origin: isize,
    t: u64,
    now: u64,
    other: isize,
)
    requires
        s1.dict@ == s0.dict@.insert(origin, t),
        s1.last_target == origin,
        t <= now,
        now - t <= LOCATION_DEBOUNCE_MS,
        other != origin,
    ensures
        !s1.spec_gate_open(origin, now),
        s1.spec_gate_open(other, now),
{
}

} // verus!
