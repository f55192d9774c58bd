use timetrack::models::{
    format_minutes, parse_hh_mm, Activity, ActivityContext, ActivitySnapshot, Timestamp,
    TrackerSettings, WorkHoursSettings,
};

#[test]
fn idle_snapshot_has_expected_defaults() {
    let idle = ActivitySnapshot::idle();
    assert!(idle.is_idle);
    assert_eq!(idle.app_name, "Idle");
    assert!(idle.app_bundle_id.is_empty());
}

#[test]
fn signature_changes_when_url_changes() {
    let mut snap = ActivitySnapshot {
        app_name: "Chrome".into(),
        app_bundle_id: "com.google.Chrome".into(),
        window_title: "Tab".into(),
        context: ActivityContext::default(),
        is_idle: false,
    };

    let sig1 = snap.signature();
    snap.context.url = Some("https://a.com".into());
    let sig2 = snap.signature();
    assert_ne!(sig1, sig2);
}

#[test]
fn signature_ignores_cwd_for_deduplication() {
    let mut a = ActivitySnapshot {
        app_name: "Terminal".into(),
        app_bundle_id: "com.apple.Terminal".into(),
        window_title: "shell".into(),
        context: ActivityContext {
            cwd: Some("/a".into()),
            git_branch: Some("main".into()),
            ..Default::default()
        },
        is_idle: false,
    };

    let sig1 = a.signature();
    a.context.cwd = Some("/b".into());
    assert_eq!(sig1, a.signature());
}

#[test]
fn tracker_settings_defaults() {
    let settings = TrackerSettings::default();
    assert_eq!(settings.idle_timeout_secs, 300);
    assert_eq!(settings.poll_interval_ms, 1500);
    assert!(!settings.tracking_paused);
}

#[test]
fn signature_lists_fields_in_order() {
    let snap = ActivitySnapshot {
        app_name: "Zed".into(),
        app_bundle_id: "dev.zed.Zed".into(),
        window_title: "main.rs — app".into(),
        context: ActivityContext {
            url: None,
            page_title: Some("t".into()),
            project: Some("app".into()),
            file: Some("main.rs".into()),
            cwd: Some("/ignored".into()),
            git_branch: Some("dev".into()),
        },
        is_idle: false,
    };
    assert_eq!(snap.signature(), "Zed|dev.zed.Zed|main.rs — app||t|app|main.rs|dev|false");
    assert_eq!(ActivitySnapshot::idle().signature(), "Idle||||||||true");
}

#[test]
fn grouping_key_equals_signature_of_same_fields() {
    let context = ActivityContext {
        url: Some("https://a.com".into()),
        ..Default::default()
    };
    let activity = Activity {
        id: 7,
        started_at: Timestamp::from_unix(100, 0).unwrap(),
        ended_at: None,
        duration_secs: 0,
        app_name: "Chrome".into(),
        app_bundle_id: "com.google.Chrome".into(),
        window_title: "A".into(),
        context: context.clone(),
        is_idle: false,
    };
    let snap = ActivitySnapshot {
        app_name: "Chrome".into(),
        app_bundle_id: "com.google.Chrome".into(),
        window_title: "A".into(),
        context,
        is_idle: false,
    };
    assert_eq!(activity.grouping_key(), snap.signature());
}

#[test]
fn duration_of_open_segment_counts_whole_seconds() {
    let mut activity = Activity {
        id: 1,
        started_at: Timestamp::from_unix(1_000, 500_000_000).unwrap(),
        ended_at: None,
        duration_secs: 5,
        app_name: "Zed".into(),
        app_bundle_id: String::new(),
        window_title: String::new(),
        context: ActivityContext::default(),
        is_idle: false,
    };
    assert_eq!(activity.duration_secs_at(Timestamp::from_unix(1_010, 400_000_000).unwrap()), 9);
    assert_eq!(activity.duration_secs_at(Timestamp::from_unix(1_010, 500_000_000).unwrap()), 10);
    assert_eq!(activity.duration_secs_at(Timestamp::from_unix(900, 0).unwrap()), 0);
    activity.ended_at = Some(Timestamp::from_unix(2_000, 0).unwrap());
    assert_eq!(activity.duration_secs_at(Timestamp::from_unix(9_000, 0).unwrap()), 5);
}

#[test]
fn timestamp_rejects_out_of_range_values() {
    assert!(Timestamp::from_unix(0, 1_000_000_000).is_none());
    assert!(Timestamp::from_unix(10_000_000_000_000, 0).is_none());
    let t = Timestamp::from_unix(-5, 7).unwrap();
    assert_eq!((t.secs(), t.nanos()), (-5, 7));
}

#[test]
fn parse_hh_mm_reads_valid_times() {
    assert_eq!(parse_hh_mm("09:30"), Some(570));
    assert_eq!(parse_hh_mm("0:0"), Some(0));
    assert_eq!(parse_hh_mm("23:59"), Some(1439));
    assert_eq!(parse_hh_mm("+9:05"), Some(545));
}

#[test]
fn parse_hh_mm_rejects_invalid_times() {
    assert_eq!(parse_hh_mm("24:00"), None);
    assert_eq!(parse_hh_mm("12:60"), None);
    assert_eq!(parse_hh_mm("1230"), None);
    assert_eq!(parse_hh_mm(":30"), None);
    assert_eq!(parse_hh_mm("12:"), None);
    assert_eq!(parse_hh_mm(" 9:30"), None);
    assert_eq!(parse_hh_mm("9:30:00"), None);
    assert_eq!(parse_hh_mm("99999:1"), None);
    assert_eq!(parse_hh_mm("-1:30"), None);
}

#[test]
fn format_minutes_pads_to_two_digits() {
    assert_eq!(format_minutes(0), "00:00");
    assert_eq!(format_minutes(9 * 60 + 5), "09:05");
    assert_eq!(format_minutes(18 * 60), "18:00");
    assert_eq!(format_minutes(65535), "1092:15");
}

#[test]
fn work_hours_labels_and_defaults() {
    let hours = WorkHoursSettings::default();
    assert!(!hours.enabled);
    assert_eq!(hours.start_label(), "09:00");
    assert_eq!(hours.end_label(), "18:00");
    assert!(hours.is_active_now());
}

#[test]
fn work_hours_window_and_wraparound() {
    let day = WorkHoursSettings { enabled: true, start_minutes: 540, end_minutes: 1080 };
    assert!(day.is_active_at(540));
    assert!(day.is_active_at(1079));
    assert!(!day.is_active_at(1080));
    assert!(!day.is_active_at(100));
    let night = WorkHoursSettings { enabled: true, start_minutes: 1320, end_minutes: 360 };
    assert!(night.is_active_at(1400));
    assert!(night.is_active_at(10));
    assert!(!night.is_active_at(360));
    assert!(!night.is_active_at(720));
    let off = WorkHoursSettings { enabled: false, start_minutes: 0, end_minutes: 0 };
    assert!(off.is_active_at(720));
}

#[test]
fn labels_read_back_as_the_same_minutes() {
    for m in [0u16, 5, 59, 60, 61, 599, 600, 1439] {
        assert_eq!(parse_hh_mm(&format_minutes(m)), Some(m));
    }
}
