use timetrack::commands::{
    activity_dto, build_subtitle, day_from_arg, format_duration, parse_day, total_duration_secs,
};
use timetrack::export::CalendarDay;
use timetrack::models::{timestamp_from_text, Activity, ActivityContext, Timestamp};

fn base() -> Activity {
    Activity {
        id: 1,
        started_at: Timestamp::from_unix(1_779_958_800, 0).unwrap(),
        ended_at: None,
        duration_secs: 0,
        app_name: "Slack".into(),
        app_bundle_id: String::new(),
        window_title: String::new(),
        context: ActivityContext::default(),
        is_idle: false,
    }
}

#[test]
fn format_duration_examples() {
    assert_eq!(format_duration(0), "0s");
    assert_eq!(format_duration(59), "59s");
    assert_eq!(format_duration(-5), "-5s");
    assert_eq!(format_duration(60), "1 Min");
    assert_eq!(format_duration(3599), "59 Min");
    assert_eq!(format_duration(3600), "1h");
    assert_eq!(format_duration(3660), "1h 1m");
    assert_eq!(format_duration(2 * 3600 + 59 * 60 + 59), "2h 59m");
}

#[test]
fn subtitle_prefers_project_then_branch_then_titles() {
    let mut a = base();
    assert_eq!(build_subtitle(&a), "Slack");
    a.window_title = "#general".into();
    assert_eq!(build_subtitle(&a), "#general");
    a.context.url = Some("https://x.y".into());
    assert_eq!(build_subtitle(&a), "https://x.y");
    a.context.page_title = Some(String::new());
    assert_eq!(build_subtitle(&a), "https://x.y");
    a.context.page_title = Some("Page".into());
    assert_eq!(build_subtitle(&a), "Page");
    a.context.git_branch = Some("main".into());
    assert_eq!(build_subtitle(&a), "Branch: main");
    a.context.project = Some("timetrack".into());
    assert_eq!(build_subtitle(&a), "timetrack");
    a.context.file = Some("main.rs".into());
    assert_eq!(build_subtitle(&a), "timetrack · main.rs");
    a.is_idle = true;
    assert_eq!(build_subtitle(&a), "Inaktiv");
}

#[test]
fn activity_rows_carry_times_and_subtitle() {
    let mut a = base();
    a.ended_at = Some(Timestamp::from_unix(1_779_958_830, 250_000_000).unwrap());
    let dto = activity_dto(&a).unwrap();
    assert_eq!(dto.started_at, "2026-05-28T09:00:00+00:00");
    assert_eq!(dto.ended_at.as_deref(), Some("2026-05-28T09:00:30.250+00:00"));
    assert_eq!(dto.subtitle, "Slack");
    assert!(!dto.is_idle);
}

#[test]
fn total_duration_sums_closed_and_open_segments() {
    let mut a = base();
    a.ended_at = Some(Timestamp::from_unix(1_779_958_900, 0).unwrap());
    a.duration_secs = 100;
    let mut b = base();
    b.started_at = Timestamp::from_unix(1_779_958_900, 0).unwrap();
    let now = Timestamp::from_unix(1_779_959_050, 0).unwrap();
    assert_eq!(total_duration_secs(&[a, b], now), 250);
    assert_eq!(total_duration_secs(&[], now), 0);
}

#[test]
fn day_argument_parses_iso_dates_or_falls_back_to_today() {
    let today = CalendarDay { year: 2024, month: 2, day: 29 };
    assert_eq!(day_from_arg(None, today), Ok(today));
    assert_eq!(
        day_from_arg(Some("2025-03-07"), today),
        Ok(CalendarDay { year: 2025, month: 3, day: 7 })
    );
    assert!(day_from_arg(Some("2025-02-30"), today).is_err());
    assert!(day_from_arg(Some("07.03.2025"), today).is_err());
    assert!(day_from_arg(Some(""), today).is_err());
    let now = parse_day(None).unwrap();
    assert!((1..=12).contains(&now.month) && (1..=31).contains(&now.day));
    assert_eq!(parse_day(Some("1999-12-31")), Ok(CalendarDay { year: 1999, month: 12, day: 31 }));
}

#[test]
fn stored_times_read_back() {
    let t = timestamp_from_text("2024-05-01T10:00:00.5+02:00").unwrap();
    assert_eq!((t.secs(), t.nanos()), (1_714_550_400, 500_000_000));
    let t = timestamp_from_text("1970-01-01T00:00:00Z").unwrap();
    assert_eq!((t.secs(), t.nanos()), (0, 0));
    assert_eq!(timestamp_from_text("yesterday"), Err("yesterday".to_string()));
    assert_eq!(timestamp_from_text("2024-05-01"), Err("2024-05-01".to_string()));
    assert_eq!(
        timestamp_from_text("2016-12-31T23:59:60Z"),
        Err("2016-12-31T23:59:60Z".to_string())
    );
}

#[test]
fn total_grows_with_now_and_stays_when_closed() {
    let mut closed = base();
    closed.ended_at = Some(Timestamp::from_unix(1_779_958_900, 0).unwrap());
    closed.duration_secs = 100;
    let mut open = base();
    open.started_at = Timestamp::from_unix(1_779_958_900, 0).unwrap();
    let early = Timestamp::from_unix(1_779_959_000, 999_999_999).unwrap();
    let later = Timestamp::from_unix(1_779_959_001, 0).unwrap();
    let both = [closed.clone(), open];
    assert_eq!(total_duration_secs(&both, early), 200);
    assert_eq!(total_duration_secs(&both, later), 201);
    let only_closed = [closed];
    assert_eq!(total_duration_secs(&only_closed, early), 100);
    assert_eq!(total_duration_secs(&only_closed, later), 100);
}
