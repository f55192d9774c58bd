//! Exporting activities as CSV rows.

use vstd::prelude::*;

use crate::models::{bool_text, or_empty, rfc3339_of, rfc3339_text, Activity, Timestamp};
use crate::text::{
    chars_of, clone_opt, contains_char, decimal, int_text, opt_view, push_decimal, push_int, str_eq,
    substring,
};

verus! {

#[derive(Debug, Clone, Copy, PartialEq, Eq, Structural)]
pub enum ExportFormat {
    Csv,
    Json,
}

#[derive(Debug, Clone, Copy, PartialEq, Eq, Structural)]
pub enum ExportScope {
    Day,
    All,
}

impl ExportFormat {
    pub open spec fn spec_extension(self) -> Seq<char> {
        match self {
            ExportFormat::Csv => "csv"@,
            ExportFormat::Json => "json"@,
        }
    }

    /// The file extension for the format.
    pub fn extension(self) -> (r: &'static str)
        ensures
            r@ == self.spec_extension(),
    {
        match self {
            ExportFormat::Csv => "csv",
            ExportFormat::Json => "json",
        }
    }

    /// The save-dialog filter: a display name and the extensions it admits.
    pub fn mime_filter(self) -> (r: (&'static str, &'static [&'static str]))
        ensures
            r.1@.len() == 1,
            match self {
                ExportFormat::Csv => r.0@ == "CSV"@ && r.1@[0]@ == "csv"@,
                ExportFormat::Json => r.0@ == "JSON"@ && r.1@[0]@ == "json"@,
            },
    {
        match self {
            ExportFormat::Csv => ("CSV", &["csv"]),
            ExportFormat::Json => ("JSON", &["json"]),
        }
    }

    /// Reads a format name: `csv` or `json`.
    pub fn try_from_str(value: &str) -> (r: Result<ExportFormat, String>)
        ensures
            value@ == "csv"@ ==> r == Ok::<ExportFormat, String>(ExportFormat::Csv),
            value@ == "json"@ ==> r == Ok::<ExportFormat, String>(ExportFormat::Json),
            value@ != "csv"@ && value@ != "json"@ ==> (r matches Err(e) && e@
                == "Format muss csv oder json sein."@),
    {
        proof {
            reveal_strlit("csv");
            reveal_strlit("json");
            assert("csv"@.len() == 3);
            assert("json"@.len() == 4);
        }
        if str_eq(value, "csv") {
            Ok(ExportFormat::Csv)
        } else if str_eq(value, "json") {
            Ok(ExportFormat::Json)
        } else {
            Err(String::from_str("Format muss csv oder json sein."))
        }
    }
}

impl ExportScope {
    /// Reads a scope name: `day` or `all`.
    pub fn try_from_str(value: &str) -> (r: Result<ExportScope, String>)
        ensures
            value@ == "day"@ ==> r == Ok::<ExportScope, String>(ExportScope::Day),
            value@ == "all"@ ==> r == Ok::<ExportScope, String>(ExportScope::All),
            value@ != "day"@ && value@ != "all"@ ==> (r matches Err(e) && e@
                == "Scope muss day oder all sein."@),
    {
        proof {
            reveal_strlit("day");
            reveal_strlit("all");
            assert("day"@[0] == 'd');
            assert("all"@[0] == 'a');
        }
        if str_eq(value, "day") {
            Ok(ExportScope::Day)
        } else if str_eq(value, "all") {
            Ok(ExportScope::All)
        } else {
            Err(String::from_str("Scope muss day oder all sein."))
        }
    }
}

/// The save-dialog filter for a format.
pub fn format_filter(format: ExportFormat) -> (r: (&'static str, &'static [&'static str]))
    ensures
        r.1@.len() == 1,
        match format {
            ExportFormat::Csv => r.0@ == "CSV"@ && r.1@[0]@ == "csv"@,
            ExportFormat::Json => r.0@ == "JSON"@ && r.1@[0]@ == "json"@,
        },
{
    format.mime_filter()
}

/// One exported activity, with its times as RFC 3339 text.
#[derive(Debug, Clone)]
pub struct ExportRow {
    pub started_at: String,
    pub ended_at: Option<String>,
    pub duration_secs: i64,
    pub app_name: String,
    pub app_bundle_id: String,
    pub window_title: String,
    pub url: Option<String>,
    pub page_title: Option<String>,
    pub project: Option<String>,
    pub file: Option<String>,
    pub cwd: Option<String>,
    pub git_branch: Option<String>,
    pub is_idle: bool,
}

/// A CSV field must be quoted when it holds a comma, a quote or a line break.
pub open spec fn needs_quoting(v: Seq<char>) -> bool {
    v.contains(',') || v.contains('"') || v.contains('\n') || v.contains('\r')
}

/// `v` with every `"` doubled.
pub open spec fn double_quotes(v: Seq<char>) -> Seq<char>
    decreases v.len(),
{
    if v.len() == 0 {
        Seq::empty()
    } else {
        double_quotes(v.drop_last()) + if v.last() == '"' {
            seq!['"', '"']
        } else {
            seq![v.last()]
        }
    }
}

/// A CSV field: quoted, with quotes doubled, when needed; else unchanged.
pub open spec fn csv_field(v: Seq<char>) -> Seq<char> {
    if needs_quoting(v) {
        seq!['"'] + double_quotes(v) + seq!['"']
    } else {
        v
    }
}

/// One CSV record for a row: its fields in header order, each escaped, joined by
/// commas, ended by a newline.
pub open spec fn csv_line(row: ExportRow) -> Seq<char> {
    csv_field(row.started_at@) + ","@ + csv_field(or_empty(row.ended_at)) + ","@ + csv_field(
        int_text(row.duration_secs as int),
    ) + ","@ + csv_field(row.app_name@) + ","@ + csv_field(row.app_bundle_id@) + ","@
        + csv_field(row.window_title@) + ","@ + csv_field(or_empty(row.url)) + ","@ + csv_field(
        or_empty(row.page_title),
    ) + ","@ + csv_field(or_empty(row.project)) + ","@ + csv_field(or_empty(row.file)) + ","@
        + csv_field(or_empty(row.cwd)) + ","@ + csv_field(or_empty(row.git_branch)) + ","@
        + csv_field(bool_text(row.is_idle)) + "\n"@
}

pub open spec fn csv_lines(rows: Seq<ExportRow>) -> Seq<char>
    decreases rows.len(),
{
    if rows.len() == 0 {
        Seq::empty()
    } else {
        csv_lines(rows.drop_last()) + csv_line(rows.last())
    }
}

pub open spec fn csv_header() -> Seq<char> {
    "started_at,ended_at,duration_secs,app_name,app_bundle_id,window_title,url,page_title,project,file,cwd,git_branch,is_idle\n"@
}

/// Escapes one CSV field.
pub fn csv_escape(value: &str) -> (r: String)
    ensures
        r@ == csv_field(value@),
{
    let v = chars_of(value);
    let special = contains_char(v.as_slice(), ',') || contains_char(v.as_slice(), '"')
        || contains_char(v.as_slice(), '\n') || contains_char(v.as_slice(), '\r');
    if !special {
        return String::from_str(value);
    }
    let mut out = String::from_str("\"");
    proof {
        reveal_strlit("\"");
        reveal_strlit("\"\"");
    }
    let mut k: usize = 0;
    while k < v.len()
        invariant
            k <= v@.len(),
            v@ == value@,
            out@ == seq!['"'] + double_quotes(v@.subrange(0, k as int)),
        decreases v.len() - k,
    {
        proof {
            reveal_strlit("\"\"");
        }
        assert(v@.subrange(0, k + 1).drop_last() =~= v@.subrange(0, k as int));
        assert(v@.subrange(0, k + 1).last() == v@[k as int]);
        if v[k] == '"' {
            out.append("\"\"");
        } else {
            let one = substring(value, k, k + 1);
            assert(one@ =~= seq![v@[k as int]]);
            out.append(one.as_str());
        }
        assert(out@ =~= seq!['"'] + double_quotes(v@.subrange(0, k + 1)));
        k = k + 1;
    }
    out.append("\"");
    assert(v@.subrange(0, v@.len() as int) =~= v@);
    assert(out@ =~= csv_field(value@));
    out
}

fn append_csv_opt(out: &mut String, o: &Option<String>)
    ensures
        final(out)@ == old(out)@ + csv_field(or_empty(*o)),
{
    match o {
        Some(s) => out.append(csv_escape(s.as_str()).as_str()),
        None => {
            let e = csv_escape("");
            proof {
                reveal_strlit("");
            }
            out.append(e.as_str());
        },
    }
}

fn csv_line_text(row: &ExportRow) -> (r: String)
    ensures
        r@ == csv_line(*row),
{
    let mut out = csv_escape(row.started_at.as_str());
    out.append(",");
    append_csv_opt(&mut out, &row.ended_at);
    out.append(",");
    let mut num = String::new();
    push_int(&mut num, row.duration_secs);
    out.append(csv_escape(num.as_str()).as_str());
    out.append(",");
    out.append(csv_escape(row.app_name.as_str()).as_str());
    out.append(",");
    out.append(csv_escape(row.app_bundle_id.as_str()).as_str());
    out.append(",");
    out.append(csv_escape(row.window_title.as_str()).as_str());
    out.append(",");
    append_csv_opt(&mut out, &row.url);
    out.append(",");
    append_csv_opt(&mut out, &row.page_title);
    out.append(",");
    append_csv_opt(&mut out, &row.project);
    out.append(",");
    append_csv_opt(&mut out, &row.file);
    out.append(",");
    append_csv_opt(&mut out, &row.cwd);
    out.append(",");
    append_csv_opt(&mut out, &row.git_branch);
    out.append(",");
    let flag = if row.is_idle {
        "true"
    } else {
        "false"
    };
    out.append(csv_escape(flag).as_str());
    out.append("\n");
    assert(out@ =~= csv_line(*row));
    out
}

/// The CSV document for the rows: the header line, then one line per row.
pub fn activities_to_csv(rows: &[ExportRow]) -> (r: Result<String, String>)
    ensures
        r matches Ok(s) && s@ == csv_header() + csv_lines(rows@),
{
    let mut out = String::from_str(
        "started_at,ended_at,duration_secs,app_name,app_bundle_id,window_title,url,page_title,project,file,cwd,git_branch,is_idle\n",
    );
    let mut k: usize = 0;
    assert(rows@.subrange(0, 0) =~= Seq::<ExportRow>::empty());
    while k < rows.len()
        invariant
            k <= rows@.len(),
            out@ == csv_header() + csv_lines(rows@.subrange(0, k as int)),
        decreases rows.len() - k,
    {
        let line = csv_line_text(&rows[k]);
        out.append(line.as_str());
        assert(rows@.subrange(0, k + 1).drop_last() =~= rows@.subrange(0, k as int));
        assert(out@ =~= csv_header() + csv_lines(rows@.subrange(0, k + 1)));
        k = k + 1;
    }
    assert(rows@.subrange(0, rows@.len() as int) =~= rows@);
    Ok(out)
}

/// Every time of the activity has an RFC 3339 text.
pub open spec fn representable(a: Activity) -> bool {
    &&& rfc3339_of(a.started_at.spec_secs(), a.started_at.spec_nanos()) is Some
    &&& (a.ended_at matches Some(t) ==> rfc3339_of(t.spec_secs(), t.spec_nanos()) is Some)
}

/// `row` is the export of activity `a` at `now`: RFC 3339 times, the duration as
/// seen at `now`, every other field copied.
pub open spec fn exported_as(a: Activity, now: Timestamp, row: ExportRow) -> bool {
    &&& Some(row.started_at@) == rfc3339_of(a.started_at.spec_secs(), a.started_at.spec_nanos())
    &&& opt_view(row.ended_at) == match a.ended_at {
        Some(t) => rfc3339_of(t.spec_secs(), t.spec_nanos()),
        None => None,
    }
    &&& row.duration_secs == a.spec_duration_secs_at(now)
    &&& row.app_name == a.app_name
    &&& row.app_bundle_id == a.app_bundle_id
    &&& row.window_title == a.window_title
    &&& row.url == a.context.url
    &&& row.page_title == a.context.page_title
    &&& row.project == a.context.project
    &&& row.file == a.context.file
    &&& row.cwd == a.context.cwd
    &&& row.git_branch == a.context.git_branch
    &&& row.is_idle == a.is_idle
}

fn export_row(a: &Activity, now: Timestamp) -> (r: Option<ExportRow>)
    ensures
        r is Some <==> representable(*a),
        r matches Some(row) ==> exported_as(*a, now, row),
{
    let started_at = match rfc3339_text(a.started_at) {
        Some(s) => s,
        None => return None,
    };
    let ended_at = match a.ended_at {
        Some(t) => match rfc3339_text(t) {
            Some(s) => Some(s),
            None => return None,
        },
        None => None,
    };
    Some(
        ExportRow {
            started_at,
            ended_at,
            duration_secs: a.duration_secs_at(now),
            app_name: a.app_name.clone(),
            app_bundle_id: a.app_bundle_id.clone(),
            window_title: a.window_title.clone(),
            url: clone_opt(&a.context.url),
            page_title: clone_opt(&a.context.page_title),
            project: clone_opt(&a.context.project),
            file: clone_opt(&a.context.file),
            cwd: clone_opt(&a.context.cwd),
            git_branch: clone_opt(&a.context.git_branch),
            is_idle: a.is_idle,
        },
    )
}

/// The export rows of the activities as seen at `now`, in order; `None` when a
/// time cannot be written as RFC 3339.
pub fn export_rows(activities: &[Activity], now: Timestamp) -> (r: Option<Vec<ExportRow>>)
    ensures
        r is Some <==> forall|i: int| 0 <= i < activities@.len() ==> representable(
            #[trigger] activities@[i],
        ),
        r matches Some(rows) ==> rows@.len() == activities@.len() && forall|i: int|
            0 <= i < activities@.len() ==> exported_as(
                #[trigger] activities@[i],
                now,
                rows@[i],
            ),
{
    let mut rows: Vec<ExportRow> = Vec::new();
    let mut k: usize = 0;
    while k < activities.len()
        invariant
            k <= activities@.len(),
            rows@.len() == k,
            forall|i: int| 0 <= i < k ==> representable(#[trigger] activities@[i]),
            forall|i: int| 0 <= i < k ==> exported_as(#[trigger] activities@[i], now, rows@[i]),
        decreases activities.len() - k,
    {
        match export_row(&activities[k], now) {
            Some(row) => rows.push(row),
            None => return None,
        }
        k = k + 1;
    }
    Some(rows)
}

/// A calendar day (proleptic Gregorian), as year, month and day of month.
#[derive(Debug, Clone, Copy, PartialEq, Eq)]
pub struct CalendarDay {
    pub year: i32,
    pub month: u32,
    pub day: u32,
}

/// The text chrono gives the day with the format `%Y-%m-%d`, or `None` where
/// `chrono::NaiveDate::from_ymd_opt` finds no such day.
pub uninterp spec fn iso_day_of(year: i32, month: u32, day: u32) -> Option<Seq<char>>;

/// Calls `chrono::NaiveDate::from_ymd_opt` and formats the date with
/// `%Y-%m-%d`; the contract only names the text.
#[verifier::external_body]
fn iso_day_text(day: CalendarDay) -> (r: Option<String>)
    ensures
        opt_view(r) == iso_day_of(day.year, day.month, day.day),
{
    match chrono::NaiveDate::from_ymd_opt(day.year, day.month, day.day) {
        Some(d) => Some(d.format("%Y-%m-%d").to_string()),
        None => None,
    }
}

/// The file name proposed for an export: `timetrack-{day}.{ext}` for one day,
/// `timetrack-all.{ext}` for everything; `None` when `day` is needed and is not
/// a calendar day.
pub fn default_filename(format: ExportFormat, scope: ExportScope, day: CalendarDay) -> (r: Option<
    String,
>)
    ensures
        match scope {
            ExportScope::Day => match iso_day_of(day.year, day.month, day.day) {
                Some(t) => r matches Some(name) && name@ == "timetrack-"@ + t + "."@
                    + format.spec_extension(),
                None => r is None,
            },
            ExportScope::All => r matches Some(name) && name@ == "timetrack-all."@
                + format.spec_extension(),
        },
{
    match scope {
        ExportScope::Day => match iso_day_text(day) {
            Some(t) => {
                let mut out = String::from_str("timetrack-");
                out.append(t.as_str());
                out.append(".");
                out.append(format.extension());
                Some(out)
            },
            None => None,
        },
        ExportScope::All => {
            let mut out = String::from_str("timetrack-all.");
            out.append(format.extension());
            Some(out)
        },
    }
}

/// An export needs at least one activity; with none it is refused with
/// `Keine Aktivitäten zum Exportieren.`
pub fn check_export_count(count: usize) -> (r: Result<(), String>)
    ensures
        r is Ok <==> count > 0,
        r matches Err(e) ==> e@ == "Keine Aktivit\u{e4}ten zum Exportieren."@,
{
    if count == 0 {
        Err(String::from_str("Keine Aktivit\u{e4}ten zum Exportieren."))
    } else {
        Ok(())
    }
}

/// The answer of an export: `Export abgebrochen.` when no file was chosen,
/// else how many entries were written to which file.
pub fn export_outcome_message(count: usize, saved_to: Option<&str>) -> (r: String)
    ensures
        match saved_to {
            None => r@ == "Export abgebrochen."@,
            Some(p) => r@ == decimal(count as nat) + " Eintr\u{e4}ge exportiert nach "@ + p@ + "."@,
        },
{
    match saved_to {
        None => String::from_str("Export abgebrochen."),
        Some(p) => {
            let mut out = String::new();
            push_decimal(&mut out, count as u64);
            out.append(" Eintr\u{e4}ge exportiert nach ");
            out.append(p);
            out.append(".");
            out
        },
    }
}

} // verus!
