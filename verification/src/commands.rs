//! What the timeline window shows: subtitles, duration labels and activity rows.

use chrono::Datelike;
use vstd::prelude::*;

use crate::export::CalendarDay;
use crate::models::{rfc3339_of, rfc3339_text, Activity, Timestamp};
use crate::text::{clone_opt, decimal, int_text, opt_view, push_decimal, push_int};

verus! {

/// One timeline row as the window receives it.
#[derive(Debug, Clone)]
pub struct ActivityDto {
    pub started_at: String,
    pub ended_at: Option<String>,
    pub app_name: String,
    pub subtitle: String,
    pub url: Option<String>,
    pub is_idle: bool,
}

/// A duration for display: seconds below a minute (`42s`), minutes below an hour
/// (`12 Min`), else hours with the remaining minutes when there are any
/// (`2h`, `1h 5m`).
pub open spec fn duration_label(secs: int) -> Seq<char> {
    if secs < 60 {
        int_text(secs) + "s"@
    } else if secs / 60 < 60 {
        decimal((secs / 60) as nat) + " Min"@
    } else if (secs / 60) % 60 == 0 {
        decimal((secs / 60 / 60) as nat) + "h"@
    } else {
        decimal((secs / 60 / 60) as nat) + "h "@ + decimal(((secs / 60) % 60) as nat) + "m"@
    }
}

pub fn format_duration(secs: i64) -> (r: String)
    ensures
        r@ == duration_label(secs as int),
{
    let mut out = String::new();
    if secs < 60 {
        push_int(&mut out, secs);
        out.append("s");
        return out;
    }
    let mins = secs / 60;
    if mins < 60 {
        push_decimal(&mut out, mins as u64);
        out.append(" Min");
        return out;
    }
    let hours = mins / 60;
    let rem = mins % 60;
    push_decimal(&mut out, hours as u64);
    if rem == 0 {
        out.append("h");
    } else {
        out.append("h ");
        push_decimal(&mut out, rem as u64);
        out.append("m");
    }
    out
}

/// The second line of a timeline row: `Inaktiv` when idle; else the project
/// (with the file, joined by ` · `); else `Branch: ` and the branch; else a
/// nonempty page title; else the URL; else a nonempty window title; else the app.
pub open spec fn subtitle_of(a: Activity) -> Seq<char> {
    if a.is_idle {
        "Inaktiv"@
    } else if a.context.project is Some {
        match a.context.file {
            Some(f) => a.context.project->0@ + " \u{b7} "@ + f@,
            None => a.context.project->0@,
        }
    } else if a.context.git_branch is Some {
        "Branch: "@ + a.context.git_branch->0@
    } else if a.context.page_title is Some && a.context.page_title->0@.len() > 0 {
        a.context.page_title->0@
    } else if a.context.url is Some {
        a.context.url->0@
    } else if a.window_title@.len() > 0 {
        a.window_title@
    } else {
        a.app_name@
    }
}

pub fn build_subtitle(activity: &Activity) -> (r: String)
    ensures
        r@ == subtitle_of(*activity),
{
    if activity.is_idle {
        return String::from_str("Inaktiv");
    }
    match &activity.context.project {
        Some(project) => {
            let mut out = project.clone();
            match &activity.context.file {
                Some(file) => {
                    out.append(" \u{b7} ");
                    out.append(file.as_str());
                },
                None => {},
            }
            return out;
        },
        None => {},
    }
    match &activity.context.git_branch {
        Some(branch) => {
            let mut out = String::from_str("Branch: ");
            out.append(branch.as_str());
            return out;
        },
        None => {},
    }
    match &activity.context.page_title {
        Some(page_title) => {
            if !page_title.as_str().is_empty() {
                return page_title.clone();
            }
        },
        None => {},
    }
    match &activity.context.url {
        Some(url) => {
            return url.clone();
        },
        None => {},
    }
    if !activity.window_title.as_str().is_empty() {
        return activity.window_title.clone();
    }
    activity.app_name.clone()
}

/// `dto` is the timeline row for `a`: RFC 3339 times, the subtitle, and the app
/// name, URL and idle flag copied.
pub open spec fn shown_as(a: Activity, dto: ActivityDto) -> bool {
    &&& Some(dto.started_at@) == rfc3339_of(a.started_at.spec_secs(), a.started_at.spec_nanos())
    &&& opt_view(dto.ended_at) == match a.ended_at {
        Some(t) => rfc3339_of(t.spec_secs(), t.spec_nanos()),
        None => None,
    }
    &&& dto.app_name == a.app_name
    &&& dto.subtitle@ == subtitle_of(a)
    &&& dto.url == a.context.url
    &&& dto.is_idle == a.is_idle
}

/// The timeline row for an activity; `None` when a time cannot be written as
/// RFC 3339.
pub fn activity_dto(a: &Activity) -> (r: Option<ActivityDto>)
    ensures
        r is Some <==> (rfc3339_of(a.started_at.spec_secs(), a.started_at.spec_nanos()) is Some
            && (a.ended_at matches Some(t) ==> rfc3339_of(t.spec_secs(), t.spec_nanos()) is Some)),
        r matches Some(dto) ==> shown_as(*a, dto),
{
    let started_at = match rfc3339_text(a.started_at) {
        Some(s) => s,
        None => return None,
    };
    let ended_at = match a.ended_at {
        Some(t) => match rfc3339_text(t) {
            Some(s) => Some(s),
            None => return None,
        },
        None => None,
    };
    Some(
        ActivityDto {
            started_at,
            ended_at,
            app_name: a.app_name.clone(),
            subtitle: build_subtitle(a),
            url: clone_opt(&a.context.url),
            is_idle: a.is_idle,
        },
    )
}

/// The sum of the first `n` durations as seen at `now`.
pub open spec fn durations_sum(activities: Seq<Activity>, now: Timestamp, n: int) -> int
    decreases n,
{
    if n <= 0 {
        0
    } else {
        durations_sum(activities, now, n - 1) + activities[n - 1].spec_duration_secs_at(now)
    }
}

/// The total time of the activities as seen at `now`. The running sum must
/// stay within `i64`.
pub fn total_duration_secs(activities: &[Activity], now: Timestamp) -> (r: i64)
    requires
        forall|n: int|
            0 <= n <= activities@.len() ==> i64::MIN <= #[trigger] durations_sum(
                activities@,
                now,
                n,
            ) <= i64::MAX,
    ensures
        r == durations_sum(activities@, now, activities@.len() as int),
{
    let mut total: i64 = 0;
    let mut k: usize = 0;
    while k < activities.len()
        invariant
            k <= activities@.len(),
            total == durations_sum(activities@, now, k as int),
            forall|n: int|
                0 <= n <= activities@.len() ==> i64::MIN <= #[trigger] durations_sum(
                    activities@,
                    now,
                    n,
                ) <= i64::MAX,
        decreases activities.len() - k,
    {
        let d = activities[k].duration_secs_at(now);
        assert(durations_sum(activities@, now, k + 1) == total + d);
        total = total + d;
        k = k + 1;
    }
    total
}

/// What chrono's `NaiveDate::parse_from_str(text, "%Y-%m-%d")` gives for the
/// text: the date as year, month and day, or the text of chrono's parse error.
pub uninterp spec fn iso_day_parse_of(text: Seq<char>) -> Result<(i32, u32, u32), Seq<char>>;

/// Calls `chrono::NaiveDate::parse_from_str` with the format `%Y-%m-%d`; the
/// contract only names the result (the parse error as its `Display` text).
#[verifier::external_body]
fn parse_iso_day(text: &str) -> (r: Result<CalendarDay, String>)
    ensures
        match r {
            Ok(d) => iso_day_parse_of(text@) == Ok::<(i32, u32, u32), Seq<char>>(
                (d.year, d.month, d.day),
            ),
            Err(e) => iso_day_parse_of(text@) == Err::<(i32, u32, u32), Seq<char>>(e@),
        },
{
    match chrono::NaiveDate::parse_from_str(text, "%Y-%m-%d") {
        Ok(d) => Ok(CalendarDay { year: d.year(), month: d.month(), day: d.day() }),
        Err(e) => Err(e.to_string()),
    }
}

/// Today's date in the machine's local time zone, from
/// `chrono::Local::now().date_naive()`; it depends on the clock, so only the
/// ranges of month and day are stated.
#[verifier::external_body]
fn local_today() -> (r: CalendarDay)
    ensures
        1 <= r.month <= 12,
        1 <= r.day <= 31,
{
    let d = chrono::Local::now().date_naive();
    CalendarDay { year: d.year(), month: d.month(), day: d.day() }
}

/// The day a command asks for: the `YYYY-MM-DD` text when one is given (its
/// parse error otherwise), else `today`.
pub fn day_from_arg(day: Option<&str>, today: CalendarDay) -> (r: Result<CalendarDay, String>)
    ensures
        match day {
            Some(t) => match iso_day_parse_of(t@) {
                Ok((y, m, d)) => r matches Ok(c) && c.year == y && c.month == m && c.day == d,
                Err(e) => r matches Err(x) && x@ == e,
            },
            None => r == Ok::<CalendarDay, String>(today),
        },
{
    match day {
        Some(t) => parse_iso_day(t),
        None => Ok(today),
    }
}

/// The day a command asks for, today (local time) when none is given.
pub fn parse_day(day: Option<&str>) -> (r: Result<CalendarDay, String>)
    ensures
        match day {
            Some(t) => match iso_day_parse_of(t@) {
                Ok((y, m, d)) => r matches Ok(c) && c.year == y && c.month == m && c.day == d,
                Err(e) => r matches Err(x) && x@ == e,
            },
            None => r matches Ok(c) && 1 <= c.month <= 12 && 1 <= c.day <= 31,
        },
{
    let today = local_today();
    day_from_arg(day, today)
}

} // verus!
