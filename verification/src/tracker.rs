//! The tracker loop's decisions: whether to track, when a segment changes, and
//! which snapshot a capture gives.

use vstd::prelude::*;

use crate::models::{ActivityContext, ActivitySnapshot, Timestamp};
use crate::monitor::{MonitorError, RawSnapshot};
use crate::parser::terminal::TerminalContext;
use crate::parser::{enrich_snapshot, enriched_as};
use crate::segment::SegmentTracker;

verus! {

/// What one pass of the tracker loop does before it sleeps.
#[derive(Debug, Clone, Copy, PartialEq, Eq, Structural)]
pub enum LoopStep {
    /// Tracking is paused: nothing happens.
    Sleep,
    /// Outside work hours: the open segment is closed.
    CloseOpenSegment,
    /// A snapshot is taken and the timeline updated.
    Tick,
}

pub fn plan_loop_step(tracking_paused: bool, in_work_hours: bool) -> (r: LoopStep)
    ensures
        r == (if tracking_paused {
            LoopStep::Sleep
        } else if !in_work_hours {
            LoopStep::CloseOpenSegment
        } else {
            LoopStep::Tick
        }),
{
    if tracking_paused {
        LoopStep::Sleep
    } else if !in_work_hours {
        LoopStep::CloseOpenSegment
    } else {
        LoopStep::Tick
    }
}

/// What the timeline store has to do for a tick.
#[derive(Debug, Clone, Copy, PartialEq, Eq, Structural)]
pub enum TickAction {
    /// The snapshot continues the open segment.
    Continue,
    /// A new segment starts: close segment `close` (if any) at the tick's time,
    /// store a new one, and report its id with `on_segment_opened`.
    Open { close: Option<i64> },
}

/// Decides a tick: a snapshot with the signature of the latest segment's
/// snapshot continues it; any other closes the open segment and opens a new one.
pub fn tick(segments: &mut SegmentTracker, snapshot: &ActivitySnapshot, now: Timestamp) -> (r:
    TickAction)
    ensures
        !old(segments).spec_should_start_new_segment(*snapshot) ==> r == TickAction::Continue
            && final(segments).spec_current_id() == old(segments).spec_current_id(),
        old(segments).spec_should_start_new_segment(*snapshot) ==> r == (TickAction::Open {
            close: old(segments).spec_current_id(),
        }) && final(segments).spec_current_id() is None,
        final(segments).spec_last_snapshot() == old(segments).spec_last_snapshot(),
        final(segments).spec_last_change_at() == Some(now),
{
    if !segments.should_start_new_segment(snapshot) {
        segments.tick_same_segment(now);
        return TickAction::Continue;
    }
    let close = segments.on_segment_closed(now);
    TickAction::Open { close }
}

/// The snapshot of a tick from what the monitor captured: a failed capture
/// counts as an unknown app; a capture is turned into a snapshot and enriched
/// with the terminal-hook state.
pub fn snapshot_from_capture(
    captured: Result<RawSnapshot, MonitorError>,
    hook_state: Option<TerminalContext>,
) -> (r: ActivitySnapshot)
    ensures
        match captured {
            Err(_) => r.app_name@ == "Unknown"@ && r.app_bundle_id@.len() == 0
                && r.window_title@.len() == 0 && r.context.url is None
                && r.context.page_title is None && r.context.project is None
                && r.context.file is None && r.context.cwd is None
                && r.context.git_branch is None && !r.is_idle,
            Ok(raw) => exists|s: ActivitySnapshot|
                {
                    &&& s.app_name == raw.app_name
                    &&& s.app_bundle_id == raw.app_bundle_id
                    &&& s.window_title == raw.window_title
                    &&& s.context.url == raw.url
                    &&& s.context.page_title == raw.page_title
                    &&& s.context.project is None
                    &&& s.context.file is None
                    &&& s.context.cwd is None
                    &&& s.context.git_branch is None
                    &&& !s.is_idle
                    &&& enriched_as(s, hook_state, r)
                },
        },
{
    match captured {
        Err(_) => ActivitySnapshot {
            app_name: String::from_str("Unknown"),
            app_bundle_id: String::new(),
            window_title: String::new(),
            context: ActivityContext::default(),
            is_idle: false,
        },
        Ok(raw) => {
            let snapshot = ActivitySnapshot {
                app_name: raw.app_name,
                app_bundle_id: raw.app_bundle_id,
                window_title: raw.window_title,
                context: ActivityContext {
                    url: raw.url,
                    page_title: raw.page_title,
                    project: None,
                    file: None,
                    cwd: None,
                    git_branch: None,
                },
                is_idle: false,
            };
            let ghost before = snapshot;
            let r = enrich_snapshot(snapshot, hook_state);
            assert(enriched_as(before, hook_state, r));
            r
        },
    }
}

} // verus!
