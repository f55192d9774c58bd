//! The tracker's data: what a snapshot of the foreground app holds, stored
//! activities, work hours and tracker settings.

use chrono::Timelike;
use vstd::prelude::*;

use crate::text::{
    opt_view,
    chars_of, decimal, find_char_exec, lemma_find_char, pad2, parse_u16, parse_u16_spec,
    push_pad2, find_char, substring,
};

verus! {

/// Context read from the window title or the browser.
#[derive(Debug, Clone, PartialEq, Eq)]
pub struct ActivityContext {
    pub url: Option<String>,
    pub page_title: Option<String>,
    pub project: Option<String>,
    pub file: Option<String>,
    pub cwd: Option<String>,
    pub git_branch: Option<String>,
}

impl Default for ActivityContext {
    fn default() -> (r: Self)
        ensures
            r.url is None,
            r.page_title is None,
            r.project is None,
            r.file is None,
            r.cwd is None,
            r.git_branch is None,
    {
        ActivityContext {
            url: None,
            page_title: None,
            project: None,
            file: None,
            cwd: None,
            git_branch: None,
        }
    }
}

/// What the foreground app shows at one moment.
#[derive(Debug, Clone, PartialEq, Eq)]
pub struct ActivitySnapshot {
    pub app_name: String,
    pub app_bundle_id: String,
    pub window_title: String,
    pub context: ActivityContext,
    pub is_idle: bool,
}

/// The text of an optional field, empty when absent.
pub open spec fn or_empty(o: Option<String>) -> Seq<char> {
    match o {
        Some(s) => s@,
        None => Seq::empty(),
    }
}

pub open spec fn bool_text(b: bool) -> Seq<char> {
    if b {
        "true"@
    } else {
        "false"@
    }
}

/// The deduplication key of an activity: app name, bundle id, window title, URL,
/// page title, project, file and branch, absent fields as empty text, then the
/// idle flag, joined by `|`. The working directory is not part of it.
pub open spec fn signature_of(
    app_name: Seq<char>,
    app_bundle_id: Seq<char>,
    window_title: Seq<char>,
    context: ActivityContext,
    is_idle: bool,
) -> Seq<char> {
    app_name + "|"@ + app_bundle_id + "|"@ + window_title + "|"@ + or_empty(context.url) + "|"@
        + or_empty(context.page_title) + "|"@ + or_empty(context.project) + "|"@ + or_empty(
        context.file,
    ) + "|"@ + or_empty(context.git_branch) + "|"@ + bool_text(is_idle)
}

impl ActivitySnapshot {
    pub open spec fn spec_signature(&self) -> Seq<char> {
        signature_of(
            self.app_name@,
            self.app_bundle_id@,
            self.window_title@,
            self.context,
            self.is_idle,
        )
    }

    /// The snapshot recorded while the user is away.
    pub fn idle() -> (r: Self)
        ensures
            r.app_name@ == "Idle"@,
            r.app_bundle_id@.len() == 0,
            r.window_title@.len() == 0,
            r.context.url is None,
            r.context.page_title is None,
            r.context.project is None,
            r.context.file is None,
            r.context.cwd is None,
            r.context.git_branch is None,
            r.is_idle,
    {
        ActivitySnapshot {
            app_name: String::from_str("Idle"),
            app_bundle_id: String::new(),
            window_title: String::new(),
            context: ActivityContext::default(),
            is_idle: true,
        }
    }

    /// The key that decides whether two snapshots belong to the same segment.
    pub fn signature(&self) -> (r: String)
        ensures
            r@ == self.spec_signature(),
    {
        signature_text(
            &self.app_name,
            &self.app_bundle_id,
            &self.window_title,
            &self.context,
            self.is_idle,
        )
    }
}

fn append_opt(out: &mut String, o: &Option<String>)
    ensures
        final(out)@ == old(out)@ + or_empty(*o),
{
    match o {
        Some(s) => out.append(s.as_str()),
        None => {
            assert(final(out)@ =~= old(out)@ + or_empty(*o));
        },
    }
}

fn signature_text(
    app_name: &String,
    app_bundle_id: &String,
    window_title: &String,
    context: &ActivityContext,
    is_idle: bool,
) -> (r: String)
    ensures
        r@ == signature_of(app_name@, app_bundle_id@, window_title@, *context, is_idle),
{
    let mut out = app_name.clone();
    out.append("|");
    out.append(app_bundle_id.as_str());
    out.append("|");
    out.append(window_title.as_str());
    out.append("|");
    append_opt(&mut out, &context.url);
    out.append("|");
    append_opt(&mut out, &context.page_title);
    out.append("|");
    append_opt(&mut out, &context.project);
    out.append("|");
    append_opt(&mut out, &context.file);
    out.append("|");
    append_opt(&mut out, &context.git_branch);
    out.append("|");
    if is_idle {
        out.append("true");
    } else {
        out.append("false");
    }
    out
}

/// An instant as seconds and nanoseconds since the Unix epoch (UTC), within the
/// range a `chrono::DateTime<Utc>` covers.
#[derive(Debug, Clone, Copy, PartialEq, Eq)]
pub struct Timestamp {
    secs: i64,
    nanos: u32,
}

/// Seconds bound of a [`Timestamp`]: chrono's `DateTime<Utc>` spans years
/// -262143..=262142, about +-8.3 * 10^12 seconds around the epoch, inside +-10^13.
pub open spec fn timestamp_in_range(secs: int, nanos: int) -> bool {
    &&& 0 <= nanos < 1_000_000_000
    &&& -10_000_000_000_000 < secs < 10_000_000_000_000
}

impl Timestamp {
    #[verifier::type_invariant]
    closed spec fn wf(self) -> bool {
        timestamp_in_range(self.secs as int, self.nanos as int)
    }

    pub closed spec fn spec_secs(self) -> int {
        self.secs as int
    }

    pub closed spec fn spec_nanos(self) -> int {
        self.nanos as int
    }

    /// The instant `secs` seconds and `nanos` nanoseconds after the epoch; `None`
    /// outside the supported range.
    pub fn from_unix(secs: i64, nanos: u32) -> (r: Option<Timestamp>)
        ensures
            r is Some <==> timestamp_in_range(secs as int, nanos as int),
            r matches Some(t) ==> t.spec_secs() == secs && t.spec_nanos() == nanos,
    {
        if nanos < 1_000_000_000 && -10_000_000_000_000 < secs && secs < 10_000_000_000_000 {
            Some(Timestamp { secs, nanos })
        } else {
            None
        }
    }

    pub fn secs(&self) -> (r: i64)
        ensures
            r == self.spec_secs(),
    {
        self.secs
    }

    pub fn nanos(&self) -> (r: u32)
        ensures
            r == self.spec_nanos(),
    {
        self.nanos
    }
}

/// The whole seconds from `from` to `to`, rounded toward zero, and never negative.
pub open spec fn elapsed_whole_secs(from: Timestamp, to: Timestamp) -> int {
    let delta_ns = (to.spec_secs() - from.spec_secs()) * 1_000_000_000 + (to.spec_nanos()
        - from.spec_nanos());
    if delta_ns <= 0 {
        0
    } else {
        delta_ns / 1_000_000_000
    }
}

/// A stored activity segment.
#[derive(Debug, Clone, PartialEq, Eq)]
pub struct Activity {
    pub id: i64,
    pub started_at: Timestamp,
    pub ended_at: Option<Timestamp>,
    pub duration_secs: i64,
    pub app_name: String,
    pub app_bundle_id: String,
    pub window_title: String,
    pub context: ActivityContext,
    pub is_idle: bool,
}

impl Activity {
    pub open spec fn spec_grouping_key(&self) -> Seq<char> {
        signature_of(
            self.app_name@,
            self.app_bundle_id@,
            self.window_title@,
            self.context,
            self.is_idle,
        )
    }

    /// The duration of the segment as seen at `now`: the stored duration once it
    /// has ended, else the whole seconds elapsed since it started.
    pub open spec fn spec_duration_secs_at(&self, now: Timestamp) -> int {
        match self.ended_at {
            Some(_) => self.duration_secs as int,
            None => elapsed_whole_secs(self.started_at, now),
        }
    }

    /// Same key as [`ActivitySnapshot::signature`] — used to merge timeline rows.
    pub fn grouping_key(&self) -> (r: String)
        ensures
            r@ == self.spec_grouping_key(),
    {
        signature_text(
            &self.app_name,
            &self.app_bundle_id,
            &self.window_title,
            &self.context,
            self.is_idle,
        )
    }

    pub fn duration_secs_at(&self, now: Timestamp) -> (r: i64)
        ensures
            r == self.spec_duration_secs_at(now),
    {
        match self.ended_at {
            Some(_) => self.duration_secs,
            None => {
                proof {
                    use_type_invariant(&self.started_at);
                    use_type_invariant(&now);
                }
                let delta: i128 = (now.secs() as i128 - self.started_at.secs() as i128)
                    * 1_000_000_000i128 + (now.nanos() as i128 - self.started_at.nanos() as i128);
                if delta <= 0 {
                    0
                } else {
                    (delta / 1_000_000_000i128) as i64
                }
            },
        }
    }
}

/// The daily time window in which tracking runs.
#[derive(Debug, Clone)]
pub struct WorkHoursSettings {
    pub enabled: bool,
    /// Minutes since midnight in local time, inclusive start.
    pub start_minutes: u16,
    /// Minutes since midnight in local time, exclusive end.
    pub end_minutes: u16,
}

impl Default for WorkHoursSettings {
    fn default() -> (r: Self)
        ensures
            !r.enabled,
            r.start_minutes == 9 * 60,
            r.end_minutes == 18 * 60,
    {
        WorkHoursSettings { enabled: false, start_minutes: 9 * 60, end_minutes: 18 * 60 }
    }
}

/// The local wall-clock time now, as `(hour, minute)`, from `chrono::Local::now()`.
#[verifier::external_body]
fn local_hour_minute() -> (r: (u32, u32))
    ensures
        r.0 < 24,
        r.1 < 60,
{
    let now = chrono::Local::now().time();
    (now.hour(), now.minute())
}

impl WorkHoursSettings {
    /// Whether tracking runs at `minutes` past local midnight: always when work
    /// hours are off; else inside `[start, end)`, a window that wraps past
    /// midnight when `start > end`.
    pub open spec fn active_at(&self, minutes: int) -> bool {
        if !self.enabled {
            true
        } else if self.start_minutes <= self.end_minutes {
            self.start_minutes <= minutes < self.end_minutes
        } else {
            minutes >= self.start_minutes || minutes < self.end_minutes
        }
    }

    /// Whether tracking runs at `minutes` past local midnight (see [`Self::active_at`]).
    pub fn is_active_at(&self, minutes: u16) -> (r: bool)
        ensures
            r == self.active_at(minutes as int),
    {
        if !self.enabled {
            return true;
        }
        if self.start_minutes <= self.end_minutes {
            minutes >= self.start_minutes && minutes < self.end_minutes
        } else {
            minutes >= self.start_minutes || minutes < self.end_minutes
        }
    }

    /// Whether tracking runs at the current local time.
    pub fn is_active_now(&self) -> (r: bool)
        ensures
            !self.enabled ==> r,
            exists|m: int| 0 <= m < 24 * 60 && r == self.active_at(m),
    {
        if !self.enabled {
            assert(self.active_at(0));
            return true;
        }
        let (hour, minute) = local_hour_minute();
        self.is_active_at_clock(hour, minute)
    }

    /// Whether tracking runs at the wall-clock time `hour:minute` (24-hour
    /// clock): decided at `hour * 60 + minute` minutes past midnight.
    pub fn is_active_at_clock(&self, hour: u32, minute: u32) -> (r: bool)
        requires
            hour < 24,
            minute < 60,
        ensures
            r == self.active_at(hour * 60 + minute),
    {
        let minutes = (hour * 60 + minute) as u16;
        self.is_active_at(minutes)
    }

    pub fn start_label(&self) -> (r: String)
        ensures
            r@ == minutes_label(self.start_minutes as nat),
    {
        format_minutes(self.start_minutes)
    }

    pub fn end_label(&self) -> (r: String)
        ensures
            r@ == minutes_label(self.end_minutes as nat),
    {
        format_minutes(self.end_minutes)
    }
}

/// `HH:MM` for a count of minutes, each part padded to two digits (`{:02}:{:02}`).
pub open spec fn minutes_label(total: nat) -> Seq<char> {
    pad2(total / 60) + ":"@ + pad2(total % 60)
}

/// The minutes since midnight that an `HH:MM` text denotes: the parts around the
/// first `:` must each parse as a `u16`, the hour below 24 and the minute below 60.
pub open spec fn hh_mm_value(s: Seq<char>) -> Option<nat> {
    match find_char(s, ':', 0) {
        None => None,
        Some(i) => match (
            parse_u16_spec(s.subrange(0, i)),
            parse_u16_spec(s.subrange(i + 1, s.len() as int)),
        ) {
            (Some(h), Some(m)) => if h >= 24 || m >= 60 {
                None
            } else {
                Some(h * 60 + m)
            },
            _ => None,
        },
    }
}

/// Reads `HH:MM` as minutes since midnight.
pub fn parse_hh_mm(value: &str) -> (r: Option<u16>)
    ensures
        match hh_mm_value(value@) {
            Some(m) => r == Some(m as u16),
            None => r is None,
        },
{
    let v = chars_of(value);
    proof {
        lemma_find_char(v@, ':', 0);
    }
    let i = match find_char_exec(v.as_slice(), ':', 0) {
        Some(i) => i,
        None => return None,
    };
    let hour_text = substring(value, 0, i);
    let minute_text = substring(value, i + 1, v.len());
    let hour = match parse_u16(hour_text.as_str()) {
        Some(h) => h,
        None => return None,
    };
    let minute = match parse_u16(minute_text.as_str()) {
        Some(m) => m,
        None => return None,
    };
    if hour >= 24 || minute >= 60 {
        return None;
    }
    Some(hour * 60 + minute)
}

/// `HH:MM` for a count of minutes.
pub fn format_minutes(total: u16) -> (r: String)
    ensures
        r@ == minutes_label(total as nat),
{
    let mut out = String::new();
    push_pad2(&mut out, (total / 60) as u64);
    out.append(":");
    push_pad2(&mut out, (total % 60) as u64);
    assert(out@ =~= minutes_label(total as nat));
    out
}

/// How the tracker runs.
#[derive(Debug, Clone)]
pub struct TrackerSettings {
    pub idle_timeout_secs: u64,
    pub poll_interval_ms: u64,
    pub tracking_paused: bool,
    pub work_hours: WorkHoursSettings,
}

impl Default for TrackerSettings {
    fn default() -> (r: Self)
        ensures
            r.idle_timeout_secs == 300,
            r.poll_interval_ms == 1500,
            !r.tracking_paused,
            !r.work_hours.enabled,
            r.work_hours.start_minutes == 9 * 60,
            r.work_hours.end_minutes == 18 * 60,
    {
        TrackerSettings {
            idle_timeout_secs: 300,
            poll_interval_ms: 1500,
            tracking_paused: false,
            work_hours: WorkHoursSettings::default(),
        }
    }
}

/// The RFC 3339 text that chrono gives the instant `secs`/`nanos` after the Unix
/// epoch in UTC (`DateTime::<Utc>::to_rfc3339`), or `None` where chrono's
/// `DateTime::<Utc>::from_timestamp` cannot represent the instant.
pub uninterp spec fn rfc3339_of(secs: int, nanos: int) -> Option<Seq<char>>;

/// Calls `chrono::DateTime::<Utc>::from_timestamp` on the instant and, when it
/// gives a value, `to_rfc3339` on it. The contract only ties the text to the
/// instant through the name `rfc3339_of`; chrono's format is not restated here.
#[verifier::external_body]
pub(crate) fn rfc3339_text(t: Timestamp) -> (r: Option<String>)
    ensures
        opt_view(r) == rfc3339_of(t.spec_secs(), t.spec_nanos()),
{
    match chrono::DateTime::<chrono::Utc>::from_timestamp(t.secs, t.nanos) {
        Some(dt) => Some(dt.to_rfc3339()),
        None => None,
    }
}


/// The instant that chrono's `DateTime::parse_from_rfc3339` reads from the text,
/// as seconds and nanoseconds since the Unix epoch (`timestamp`,
/// `timestamp_subsec_nanos`), or `None` where it does not parse.
pub uninterp spec fn rfc3339_parse_of(text: Seq<char>) -> Option<(int, int)>;

/// Calls `chrono::DateTime::parse_from_rfc3339` and, on success, `timestamp`
/// and `timestamp_subsec_nanos`; the contract only names the result.
#[verifier::external_body]
fn parse_rfc3339(text: &str) -> (r: Option<(i64, u32)>)
    ensures
        match r {
            Some((secs, nanos)) => rfc3339_parse_of(text@) == Some((secs as int, nanos as int)),
            None => rfc3339_parse_of(text@) is None,
        },
{
    match chrono::DateTime::parse_from_rfc3339(text) {
        Ok(dt) => Some((dt.timestamp(), dt.timestamp_subsec_nanos())),
        Err(_) => None,
    }
}

/// Reads a stored RFC 3339 time. The error is the text itself: for text that
/// does not parse, and for an instant outside the [`Timestamp`] range. That
/// range holds no leap second: chrono gives a time written with second `60`
/// one second or more of nanoseconds, and such a time is refused here.
pub fn timestamp_from_text(text: &str) -> (r: Result<Timestamp, String>)
    ensures
        (rfc3339_parse_of(text@) matches Some((secs, nanos)) && nanos >= 1_000_000_000) ==> (r
            matches Err(e) && e@ == text@),
        match rfc3339_parse_of(text@) {
            Some((secs, nanos)) => if timestamp_in_range(secs, nanos) {
                r matches Ok(t) && t.spec_secs() == secs && t.spec_nanos() == nanos
            } else {
                r matches Err(e) && e@ == text@
            },
            None => r matches Err(e) && e@ == text@,
        },
{
    match parse_rfc3339(text) {
        Some((secs, nanos)) => match Timestamp::from_unix(secs, nanos) {
            Some(t) => Ok(t),
            None => Err(String::from_str(text)),
        },
        None => Err(String::from_str(text)),
    }
}

} // verus!
