use timetrack::export::{
    activities_to_csv, check_export_count, export_outcome_message, csv_escape, default_filename, export_rows, format_filter, CalendarDay,
    ExportFormat, ExportRow, ExportScope,
};
use timetrack::models::{Activity, ActivityContext, Timestamp};

fn activity(start: i64, end: Option<i64>) -> Activity {
    Activity {
        id: 1,
        started_at: Timestamp::from_unix(start, 0).unwrap(),
        ended_at: end.map(|e| Timestamp::from_unix(e, 0).unwrap()),
        duration_secs: end.map(|e| e - start).unwrap_or(0),
        app_name: "Zed".into(),
        app_bundle_id: "dev.zed.Zed".into(),
        window_title: "a, \"b\"".into(),
        context: ActivityContext { project: Some("p".into()), ..Default::default() },
        is_idle: false,
    }
}

#[test]
fn csv_escape_quotes_only_when_needed() {
    assert_eq!(csv_escape("plain"), "plain");
    assert_eq!(csv_escape("a,b"), "\"a,b\"");
    assert_eq!(csv_escape("say \"hi\""), "\"say \"\"hi\"\"\"");
    assert_eq!(csv_escape("line\nbreak"), "\"line\nbreak\"");
    assert_eq!(csv_escape("cr\r"), "\"cr\r\"");
    assert_eq!(csv_escape(""), "");
}

#[test]
fn csv_has_header_and_one_line_per_row() {
    let rows = export_rows(&[activity(1_779_958_800, Some(1_779_958_860))], Timestamp::from_unix(1_779_960_000, 0).unwrap()).unwrap();
    let csv = activities_to_csv(&rows).unwrap();
    assert_eq!(
        csv,
        "started_at,ended_at,duration_secs,app_name,app_bundle_id,window_title,url,page_title,project,file,cwd,git_branch,is_idle\n\
         2026-05-28T09:00:00+00:00,2026-05-28T09:01:00+00:00,60,Zed,dev.zed.Zed,\"a, \"\"b\"\"\",,,p,,,,false\n"
    );
    assert_eq!(activities_to_csv(&[]).unwrap().lines().count(), 1);
}

#[test]
fn export_rows_use_duration_at_now_for_open_segments() {
    let now = Timestamp::from_unix(1_779_958_900, 0).unwrap();
    let rows = export_rows(&[activity(1_779_958_800, None)], now).unwrap();
    let row: &ExportRow = &rows[0];
    assert_eq!(row.duration_secs, 100);
    assert_eq!(row.ended_at, None);
    assert_eq!(row.started_at, "2026-05-28T09:00:00+00:00");
    assert_eq!(row.project.as_deref(), Some("p"));
}

#[test]
fn export_formats_and_scopes() {
    assert_eq!(ExportFormat::try_from_str("csv"), Ok(ExportFormat::Csv));
    assert_eq!(ExportFormat::try_from_str("json"), Ok(ExportFormat::Json));
    assert_eq!(ExportFormat::try_from_str("xml"), Err("Format muss csv oder json sein.".to_string()));
    assert_eq!(ExportScope::try_from_str("day"), Ok(ExportScope::Day));
    assert_eq!(ExportScope::try_from_str("all"), Ok(ExportScope::All));
    assert_eq!(ExportScope::try_from_str("week"), Err("Scope muss day oder all sein.".to_string()));
    assert_eq!(ExportFormat::Csv.extension(), "csv");
    assert_eq!(format_filter(ExportFormat::Json), ("JSON", &["json"][..]));
    assert_eq!(ExportFormat::Csv.mime_filter(), ("CSV", &["csv"][..]));
}

#[test]
fn default_filenames() {
    let day = CalendarDay { year: 2026, month: 5, day: 28 };
    assert_eq!(default_filename(ExportFormat::Csv, ExportScope::Day, day).as_deref(), Some("timetrack-2026-05-28.csv"));
    assert_eq!(default_filename(ExportFormat::Json, ExportScope::All, day).as_deref(), Some("timetrack-all.json"));
    let bad = CalendarDay { year: 2026, month: 2, day: 30 };
    assert_eq!(default_filename(ExportFormat::Json, ExportScope::Day, bad), None);
    assert_eq!(default_filename(ExportFormat::Json, ExportScope::All, bad).as_deref(), Some("timetrack-all.json"));
}

/// A plain RFC 4180 reader (records end at a line feed).
fn read_csv(doc: &str) -> Vec<Vec<String>> {
    let chars: Vec<char> = doc.chars().collect();
    let mut records = Vec::new();
    let mut fields = Vec::new();
    let mut i = 0;
    while i < chars.len() {
        let mut field = String::new();
        if chars[i] == '"' {
            i += 1;
            loop {
                if chars[i] == '"' {
                    if i + 1 < chars.len() && chars[i + 1] == '"' {
                        field.push('"');
                        i += 2;
                    } else {
                        i += 1;
                        break;
                    }
                } else {
                    field.push(chars[i]);
                    i += 1;
                }
            }
        } else {
            while chars[i] != ',' && chars[i] != '\n' {
                field.push(chars[i]);
                i += 1;
            }
        }
        fields.push(field);
        if chars[i] == '\n' {
            records.push(std::mem::take(&mut fields));
        }
        i += 1;
    }
    records
}

#[test]
fn csv_reads_back_as_header_and_rows() {
    let mut tricky = activity(1_779_958_800, None);
    tricky.context.url = Some("https://x.test/?a=1,2".into());
    tricky.context.page_title = Some("line\nbreak\r and \"quotes\"".into());
    tricky.context.git_branch = Some(String::new());
    tricky.is_idle = true;
    let rows = export_rows(
        &[activity(1_779_958_800, Some(1_779_958_860)), tricky],
        Timestamp::from_unix(1_779_960_000, 0).unwrap(),
    )
    .unwrap();
    let records = read_csv(&activities_to_csv(&rows).unwrap());
    assert_eq!(records.len(), 3);
    assert_eq!(records[0][0], "started_at");
    assert_eq!(records[0][12], "is_idle");
    assert_eq!(records[1][5], "a, \"b\"");
    assert_eq!(records[2][1], "");
    assert_eq!(records[2][2], "1200");
    assert_eq!(records[2][6], "https://x.test/?a=1,2");
    assert_eq!(records[2][7], "line\nbreak\r and \"quotes\"");
    assert_eq!(records[2][12], "true");
    assert!(records.iter().all(|r| r.len() == 13));
}

#[test]
fn export_answers() {
    assert_eq!(check_export_count(0), Err("Keine Aktivitäten zum Exportieren.".to_string()));
    assert_eq!(check_export_count(3), Ok(()));
    assert_eq!(export_outcome_message(3, None), "Export abgebrochen.");
    assert_eq!(
        export_outcome_message(12, Some("/tmp/timetrack-all.csv")),
        "12 Einträge exportiert nach /tmp/timetrack-all.csv."
    );
}
