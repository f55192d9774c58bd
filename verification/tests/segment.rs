use timetrack::models::{ActivityContext, ActivitySnapshot, Timestamp};
use timetrack::segment::SegmentTracker;
use timetrack::tracker::{plan_loop_step, tick, LoopStep, TickAction};

fn now() -> Timestamp {
    let t = chrono::Utc::now();
    Timestamp::from_unix(t.timestamp(), t.timestamp_subsec_nanos()).unwrap()
}

fn sample(app: &str, title: &str) -> ActivitySnapshot {
    ActivitySnapshot {
        app_name: app.into(),
        app_bundle_id: format!("com.{app}"),
        window_title: title.into(),
        context: ActivityContext::default(),
        is_idle: false,
    }
}

#[test]
fn new_segment_on_app_change() {
    let tracker = SegmentTracker::new();
    let a = sample("Zed", "main.rs");
    let b = sample("Chrome", "GitHub");

    assert!(tracker.should_start_new_segment(&a));
    assert!(tracker.should_start_new_segment(&a));

    let mut tracker = tracker;
    tracker.on_segment_opened(1, a, now());
    assert!(tracker.should_start_new_segment(&b));
}

#[test]
fn new_segment_on_url_change() {
    let mut tracker = SegmentTracker::new();
    let mut ctx = ActivityContext::default();
    ctx.url = Some("https://a.com".into());

    let snap1 = ActivitySnapshot {
        app_name: "Chrome".into(),
        app_bundle_id: "com.google.Chrome".into(),
        window_title: "A".into(),
        context: ctx.clone(),
        is_idle: false,
    };

    ctx.url = Some("https://b.com".into());
    let snap2 = ActivitySnapshot {
        context: ctx,
        ..snap1.clone()
    };

    tracker.on_segment_opened(1, snap1, now());
    assert!(tracker.should_start_new_segment(&snap2));
}

#[test]
fn idle_snapshot_differs() {
    let tracker = SegmentTracker::new();
    let active = sample("Zed", "main.rs");
    let idle = ActivitySnapshot::idle();

    assert!(tracker.should_start_new_segment(&active));
    let mut tracker = tracker;
    tracker.on_segment_opened(1, active, now());
    assert!(tracker.should_start_new_segment(&idle));
}

#[test]
fn no_new_segment_for_identical_snapshot() {
    let mut tracker = SegmentTracker::new();
    let snap = sample("Zed", "main.rs — app");
    tracker.on_segment_opened(1, snap.clone(), now());
    assert!(!tracker.should_start_new_segment(&snap));
}

#[test]
fn new_segment_when_project_changes() {
    let mut tracker = SegmentTracker::new();
    let mut ctx = ActivityContext::default();
    ctx.project = Some("a".into());

    let snap1 = ActivitySnapshot {
        app_name: "Zed".into(),
        app_bundle_id: "dev.zed.Zed".into(),
        window_title: "main.rs — a".into(),
        context: ctx.clone(),
        is_idle: false,
    };

    ctx.project = Some("b".into());
    let snap2 = ActivitySnapshot {
        context: ctx,
        window_title: "main.rs — b".into(),
        ..snap1.clone()
    };

    tracker.on_segment_opened(1, snap1, now());
    assert!(tracker.should_start_new_segment(&snap2));
}

#[test]
fn close_segment_clears_current_id() {
    let mut tracker = SegmentTracker::new();
    tracker.on_segment_opened(42, sample("Zed", "a"), now());
    assert_eq!(tracker.current_segment_id(), Some(42));

    let closed = tracker.on_segment_closed(now());
    assert_eq!(closed, Some(42));
    assert_eq!(tracker.current_segment_id(), None);
}

#[test]
fn closing_keeps_last_snapshot_and_tick_keeps_segment() {
    let mut tracker = SegmentTracker::default();
    assert!(tracker.last_snapshot().is_none());
    tracker.on_segment_opened(3, sample("Zed", "a"), now());
    tracker.tick_same_segment(now());
    assert_eq!(tracker.current_segment_id(), Some(3));
    tracker.on_segment_closed(now());
    assert_eq!(tracker.last_snapshot().map(|s| s.window_title.as_str()), Some("a"));
    assert!(!tracker.should_start_new_segment(&sample("Zed", "a")));
    assert_eq!(tracker.on_segment_closed(now()), None);
}

#[test]
fn loop_step_follows_pause_and_work_hours() {
    assert_eq!(plan_loop_step(true, true), LoopStep::Sleep);
    assert_eq!(plan_loop_step(true, false), LoopStep::Sleep);
    assert_eq!(plan_loop_step(false, false), LoopStep::CloseOpenSegment);
    assert_eq!(plan_loop_step(false, true), LoopStep::Tick);
}

/// A workday driven through the tracker's decisions, with the timeline kept in
/// a vector as `(id, app, started, ended)`.
#[test]
fn workday_ticks_open_and_close_segments() {
    let base = Timestamp::from_unix(1_779_958_800, 0).unwrap();
    let at = |mins: i64| Timestamp::from_unix(base.secs() + mins * 60, 0).unwrap();
    let mut store: Vec<(i64, String, i64, Option<i64>)> = Vec::new();
    let mut tracker = SegmentTracker::new();
    let timeline = [
        (0, sample("Zed", "main.rs — timetrack")),
        (10, sample("Zed", "main.rs — timetrack")),
        (45, sample("Chrome", "Pull Request")),
        (60, ActivitySnapshot::idle()),
    ];
    for (mins, snapshot) in timeline {
        let now = at(mins);
        match tick(&mut tracker, &snapshot, now) {
            TickAction::Continue => {}
            TickAction::Open { close } => {
                if let Some(id) = close {
                    store.iter_mut().find(|r| r.0 == id).unwrap().3 = Some(now.secs());
                }
                let id = store.len() as i64 + 1;
                store.push((id, snapshot.app_name.clone(), now.secs(), None));
                tracker.on_segment_opened(id, snapshot, now);
            }
        }
    }
    let end = at(120);
    if let Some(id) = tracker.on_segment_closed(end) {
        store.iter_mut().find(|r| r.0 == id).unwrap().3 = Some(end.secs());
    }
    let durations: Vec<(String, i64)> =
        store.iter().map(|r| (r.1.clone(), r.3.unwrap() - r.2)).collect();
    assert_eq!(
        durations,
        vec![("Zed".to_string(), 45 * 60), ("Chrome".to_string(), 15 * 60), ("Idle".to_string(), 60 * 60)]
    );
}

#[test]
fn any_key_field_change_starts_a_segment() {
    let base = sample("Zed", "main.rs");
    let mut tracker = SegmentTracker::new();
    tracker.on_segment_opened(1, base.clone(), now());
    let mut changes = Vec::new();
    let mut s = base.clone();
    s.app_name = "Zed Preview".into();
    changes.push(s);
    let mut s = base.clone();
    s.app_bundle_id = "dev.zed.Zed-Preview".into();
    changes.push(s);
    let mut s = base.clone();
    s.window_title = "lib.rs".into();
    changes.push(s);
    let mut s = base.clone();
    s.context.page_title = Some("Docs".into());
    changes.push(s);
    let mut s = base.clone();
    s.context.file = Some("lib.rs".into());
    changes.push(s);
    let mut s = base.clone();
    s.context.git_branch = Some("main".into());
    changes.push(s);
    for changed in &changes {
        assert!(tracker.should_start_new_segment(changed), "{changed:?}");
    }
    let mut same = base.clone();
    same.context.cwd = Some("/elsewhere".into());
    assert!(!tracker.should_start_new_segment(&same));
    let mut empty_url = base;
    empty_url.context.url = Some(String::new());
    assert!(!tracker.should_start_new_segment(&empty_url));
}
