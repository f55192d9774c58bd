//! Decides when the tracked activity changes and a new timeline segment begins.

use vstd::prelude::*;

use crate::models::{ActivitySnapshot, Timestamp};

verus! {

/// The open segment and the snapshot it was opened for.
pub struct SegmentTracker {
    current_id: Option<i64>,
    last_snapshot: Option<ActivitySnapshot>,
    last_change_at: Option<Timestamp>,
}

impl SegmentTracker {
    /// The id of the open segment.
    pub closed spec fn spec_current_id(&self) -> Option<i64> {
        self.current_id
    }

    /// The snapshot the latest segment was opened for.
    pub closed spec fn spec_last_snapshot(&self) -> Option<ActivitySnapshot> {
        self.last_snapshot
    }

    /// When the tracker last saw a change or a tick.
    pub closed spec fn spec_last_change_at(&self) -> Option<Timestamp> {
        self.last_change_at
    }

    /// A snapshot starts a new segment unless it has the signature of the
    /// snapshot the latest segment was opened for.
    pub open spec fn spec_should_start_new_segment(&self, snapshot: ActivitySnapshot) -> bool {
        match self.spec_last_snapshot() {
            None => true,
            Some(prev) => prev.spec_signature() != snapshot.spec_signature(),
        }
    }

    pub fn new() -> (r: Self)
        ensures
            r.spec_current_id() is None,
            r.spec_last_snapshot() is None,
            r.spec_last_change_at() is None,
    {
        SegmentTracker { current_id: None, last_snapshot: None, last_change_at: None }
    }

    pub fn current_segment_id(&self) -> (r: Option<i64>)
        ensures
            r == self.spec_current_id(),
    {
        self.current_id
    }

    pub fn last_snapshot(&self) -> (r: Option<&ActivitySnapshot>)
        ensures
            match self.spec_last_snapshot() {
                Some(s) => r == Some(&s),
                None => r is None,
            },
    {
        match &self.last_snapshot {
            Some(s) => Some(s),
            None => None,
        }
    }

    pub fn should_start_new_segment(&self, snapshot: &ActivitySnapshot) -> (r: bool)
        ensures
            r == self.spec_should_start_new_segment(*snapshot),
    {
        match &self.last_snapshot {
            None => true,
            Some(prev) => {
                let a = prev.signature();
                let b = snapshot.signature();
                !(a == b)
            },
        }
    }

    /// Records that segment `id` was opened for `snapshot` at `at`.
    pub fn on_segment_opened(&mut self, id: i64, snapshot: ActivitySnapshot, at: Timestamp)
        ensures
            final(self).spec_current_id() == Some(id),
            final(self).spec_last_snapshot() == Some(snapshot),
            final(self).spec_last_change_at() == Some(at),
    {
        self.current_id = Some(id);
        self.last_snapshot = Some(snapshot);
        self.last_change_at = Some(at);
    }

    /// Closes the open segment at `at`, returning its id; the snapshot it was
    /// opened for is kept.
    pub fn on_segment_closed(&mut self, at: Timestamp) -> (r: Option<i64>)
        ensures
            r == old(self).spec_current_id(),
            final(self).spec_current_id() is None,
            final(self).spec_last_snapshot() == old(self).spec_last_snapshot(),
            final(self).spec_last_change_at() == Some(at),
    {
        let id = self.current_id;
        self.current_id = None;
        self.last_change_at = Some(at);
        id
    }

    /// Records a tick at `at` that continued the open segment.
    pub fn tick_same_segment(&mut self, at: Timestamp)
        ensures
            final(self).spec_current_id() == old(self).spec_current_id(),
            final(self).spec_last_snapshot() == old(self).spec_last_snapshot(),
            final(self).spec_last_change_at() == Some(at),
    {
        self.last_change_at = Some(at);
    }
}

impl Default for SegmentTracker {
    fn default() -> (r: Self)
        ensures
            r.spec_current_id() is None,
            r.spec_last_snapshot() is None,
            r.spec_last_change_at() is None,
    {
        Self::new()
    }
}

} // verus!
