//! Decisions of the foreground-app monitor: which window counts as frontmost,
//! which bundle id an app has, and what a snapshot holds given what the
//! platform probes returned.

use vstd::prelude::*;

use crate::paths::{path_extension, path_extension_of, path_parent, path_parent_of};
use crate::text::{chars_eq, chars_of, contains_char, has_prefix, opt_view, starts_with_exec, str_eq};

verus! {

/// What the monitor captured, before parsing.
#[derive(Debug, Clone, PartialEq, Eq)]
pub struct RawSnapshot {
    pub app_name: String,
    pub app_bundle_id: String,
    pub window_title: String,
    pub url: Option<String>,
    pub page_title: Option<String>,
}

impl RawSnapshot {
    /// A snapshot of the named app with every other field empty.
    pub fn stub(app_name: &str) -> (r: Self)
        ensures
            r.app_name@ == app_name@,
            r.app_bundle_id@.len() == 0,
            r.window_title@.len() == 0,
            r.url is None,
            r.page_title is None,
    {
        RawSnapshot {
            app_name: String::from_str(app_name),
            app_bundle_id: String::new(),
            window_title: String::new(),
            url: None,
            page_title: None,
        }
    }
}

#[derive(Debug)]
pub enum MonitorError {
    UnsupportedPlatform,
    Inner(String),
}

impl MonitorError {
    /// The error's message.
    pub fn message(&self) -> (r: String)
        ensures
            r@ == match self {
                MonitorError::UnsupportedPlatform => "platform monitor is only available on macOS"@,
                MonitorError::Inner(m) => "monitor error: "@ + m@,
            },
    {
        match self {
            MonitorError::UnsupportedPlatform => String::from_str(
                "platform monitor is only available on macOS",
            ),
            MonitorError::Inner(m) => {
                let mut out = String::from_str("monitor error: ");
                out.append(m.as_str());
                out
            },
        }
    }
}

#[derive(Debug)]
pub enum MacMonitorError {
    NoFrontmostApp,
}

impl MacMonitorError {
    /// The error's message.
    pub fn message(&self) -> (r: String)
        ensures
            r@ == "no frontmost application"@,
    {
        String::from_str("no frontmost application")
    }
}

/// The snapshot result of the monitor: `platform` is what the platform capture
/// returned, or `None` where no platform monitor exists; its errors are wrapped
/// with their message.
pub fn capture_snapshot(platform: Option<Result<RawSnapshot, MacMonitorError>>) -> (r: Result<
    RawSnapshot,
    MonitorError,
>)
    ensures
        match platform {
            None => r matches Err(MonitorError::UnsupportedPlatform),
            Some(Ok(s)) => r == Ok::<RawSnapshot, MonitorError>(s),
            Some(Err(_)) => r matches Err(MonitorError::Inner(m)) && m@
                == "no frontmost application"@,
        },
{
    match platform {
        None => Err(MonitorError::UnsupportedPlatform),
        Some(Ok(s)) => Ok(s),
        Some(Err(e)) => Err(MonitorError::Inner(e.message())),
    }
}

/// Whether window access is effectively granted: the system says so, or a
/// capture taken without that word still saw a window title, a URL or a page
/// title.
pub fn accessibility_effective(trusted: bool, capture: &Result<RawSnapshot, MonitorError>) -> (r:
    bool)
    ensures
        r == (trusted || (capture matches Ok(s) && (s.window_title@.len() > 0 || s.url is Some
            || s.page_title is Some))),
{
    if trusted {
        return true;
    }
    match capture {
        Ok(s) => !s.window_title.as_str().is_empty() || s.url.is_some() || s.page_title.is_some(),
        Err(_) => false,
    }
}

/// The app that owns the frontmost window.
#[derive(Debug, Clone)]
pub struct FrontmostApp {
    pub name: String,
    pub bundle_id: String,
    pub pid: i32,
}

/// The focused window of an app.
#[derive(Debug, Clone)]
pub struct WindowInfo {
    pub title: Option<String>,
}

/// The active tab of a browser.
#[derive(Debug, Clone)]
pub struct BrowserInfo {
    pub url: Option<String>,
    pub title: Option<String>,
}

/// The frontmost app, or the error when none was found.
pub fn frontmost_app(found: Option<FrontmostApp>) -> (r: Result<FrontmostApp, MacMonitorError>)
    ensures
        match found {
            Some(app) => r matches Ok(a) && a.name == app.name && a.bundle_id == app.bundle_id
                && a.pid == app.pid,
            None => r matches Err(MacMonitorError::NoFrontmostApp),
        },
{
    match found {
        Some(app) => Ok(app),
        None => Err(MacMonitorError::NoFrontmostApp),
    }
}

/// The snapshot assembled from the probes: with accessibility access the
/// window's title is the window title and the page title; a browser probe, used
/// only for an app with a bundle id, gives the URL and, when it has one, the
/// page title. Without access only app name and bundle id are known.
pub open spec fn probed_snapshot_ok(
    app: FrontmostApp,
    trusted: bool,
    window: Option<WindowInfo>,
    browser: Option<BrowserInfo>,
    r: RawSnapshot,
) -> bool {
    let title: Option<String> = if trusted && window is Some {
        window->0.title
    } else {
        None
    };
    let use_browser = trusted && app.bundle_id@.len() > 0 && browser is Some;
    &&& r.app_name == app.name
    &&& r.app_bundle_id == app.bundle_id
    &&& r.window_title@ == match title {
        Some(t) => t@,
        None => Seq::empty(),
    }
    &&& r.url == if use_browser {
        browser->0.url
    } else {
        None
    }
    &&& r.page_title == if use_browser && browser->0.title is Some {
        browser->0.title
    } else {
        title
    }
}

/// Assembles a raw snapshot from what the platform probes found.
pub fn snapshot_from_probes(
    app: FrontmostApp,
    trusted: bool,
    window: Option<WindowInfo>,
    browser: Option<BrowserInfo>,
) -> (r: RawSnapshot)
    ensures
        probed_snapshot_ok(app, trusted, window, browser, r),
{
    let mut window_title = String::new();
    let mut url: Option<String> = None;
    let mut page_title: Option<String> = None;
    if trusted {
        match window {
            Some(w) => {
                window_title = match &w.title {
                    Some(t) => t.clone(),
                    None => String::new(),
                };
                page_title = w.title;
            },
            None => {},
        }
        if !app.bundle_id.as_str().is_empty() {
            match browser {
                Some(b) => {
                    url = b.url;
                    if b.title.is_some() {
                        page_title = b.title;
                    }
                },
                None => {},
            }
        }
    }
    RawSnapshot {
        app_name: app.name,
        app_bundle_id: app.bundle_id,
        window_title,
        url,
        page_title,
    }
}

/// Bundle ids of the browsers whose active tab is read.
pub open spec fn is_browser_bundle(b: Seq<char>) -> bool {
    ||| b == "com.google.Chrome"@
    ||| b == "com.apple.Safari"@
    ||| b == "org.mozilla.firefox"@
    ||| b == "com.brave.Browser"@
    ||| b == "com.microsoft.edgemac"@
    ||| b == "company.thebrowser.Browser"@
    ||| b == "com.operasoftware.Opera"@
    ||| b == "com.vivaldi.Vivaldi"@
    ||| b == "com.google.Chrome.canary"@
}

pub fn is_browser_bundle_id(bundle_id: &str) -> (r: bool)
    ensures
        r == is_browser_bundle(bundle_id@),
{
    str_eq(bundle_id, "com.google.Chrome") || str_eq(bundle_id, "com.apple.Safari") || str_eq(
        bundle_id,
        "org.mozilla.firefox",
    ) || str_eq(bundle_id, "com.brave.Browser") || str_eq(bundle_id, "com.microsoft.edgemac")
        || str_eq(bundle_id, "company.thebrowser.Browser") || str_eq(
        bundle_id,
        "com.operasoftware.Opera",
    ) || str_eq(bundle_id, "com.vivaldi.Vivaldi") || str_eq(bundle_id, "com.google.Chrome.canary")
}

/// Safari keeps its URL in a different accessibility attribute than other browsers.
pub fn is_safari_bundle_id(bundle_id: &str) -> (r: bool)
    ensures
        r == (bundle_id@ == "com.apple.Safari"@),
{
    str_eq(bundle_id, "com.apple.Safari")
}

/// The active tab of a supported browser: `url` is what the accessibility probe
/// found, and the window title serves as the tab title. Other apps, and tabs
/// without a URL, give `None`.
pub fn browser_info(bundle_id: &str, url: Option<String>, window_title: &str) -> (r: Option<
    BrowserInfo,
>)
    ensures
        r is Some <==> is_browser_bundle(bundle_id@) && url is Some,
        r matches Some(b) ==> b.url == url && opt_view(b.title) == Some(window_title@),
{
    if !is_browser_bundle_id(bundle_id) {
        return None;
    }
    match url {
        Some(u) => Some(BrowserInfo { url: Some(u), title: Some(String::from_str(window_title)) }),
        None => None,
    }
}

/// Text that plausibly is a URL: an `http://` or `https://` prefix, or a dot and
/// no space.
pub open spec fn url_like(v: Seq<char>) -> bool {
    has_prefix(v, "http://"@) || has_prefix(v, "https://"@) || (v.contains('.') && !v.contains(' '))
}

pub fn looks_like_url(value: &str) -> (r: bool)
    ensures
        r == url_like(value@),
{
    let v = chars_of(value);
    starts_with_exec(v.as_slice(), chars_of("http://").as_slice()) || starts_with_exec(
        v.as_slice(),
        chars_of("https://").as_slice(),
    ) || (contains_char(v.as_slice(), '.') && !contains_char(v.as_slice(), ' '))
}

/// Bundle ids of well-known apps by the owner name the window list reports.
pub open spec fn owner_bundle(name: Seq<char>) -> Option<Seq<char>> {
    if name == "Safari"@ {
        Some("com.apple.Safari"@)
    } else if name == "Google Chrome"@ {
        Some("com.google.Chrome"@)
    } else if name == "Firefox"@ {
        Some("org.mozilla.firefox"@)
    } else if name == "Brave Browser"@ {
        Some("com.brave.Browser"@)
    } else if name == "Microsoft Edge"@ {
        Some("com.microsoft.edgemac"@)
    } else if name == "Arc"@ {
        Some("company.thebrowser.Browser"@)
    } else if name == "Opera"@ {
        Some("com.operasoftware.Opera"@)
    } else if name == "Vivaldi"@ {
        Some("com.vivaldi.Vivaldi"@)
    } else if name == "Terminal"@ {
        Some("com.apple.Terminal"@)
    } else if name == "iTerm2"@ {
        Some("com.googlecode.iterm2"@)
    } else if name == "Zed"@ {
        Some("dev.zed.Zed"@)
    } else if name == "Cursor"@ {
        Some("com.todesktop.230313mzl4w4u92"@)
    } else if name == "Telegram"@ {
        Some("ru.keepcoder.Telegram"@)
    } else if name == "Slack"@ {
        Some("com.tinyspeck.slackmacgap"@)
    } else if name == "Code"@ {
        Some("com.microsoft.VSCode"@)
    } else if name == "TimeTrack"@ {
        Some("com.timetrack.app"@)
    } else if name == "timetrack"@ {
        Some("com.timetrack.app"@)
    } else {
        None
    }
}

/// The bundle id of a well-known app by its window owner name.
pub fn bundle_id_from_owner_name(owner_name: &str) -> (r: Option<String>)
    ensures
        opt_view(r) == owner_bundle(owner_name@),
{
    let found: &str = if str_eq(owner_name, "Safari") {
        "com.apple.Safari"
    } else if str_eq(owner_name, "Google Chrome") {
        "com.google.Chrome"
    } else if str_eq(owner_name, "Firefox") {
        "org.mozilla.firefox"
    } else if str_eq(owner_name, "Brave Browser") {
        "com.brave.Browser"
    } else if str_eq(owner_name, "Microsoft Edge") {
        "com.microsoft.edgemac"
    } else if str_eq(owner_name, "Arc") {
        "company.thebrowser.Browser"
    } else if str_eq(owner_name, "Opera") {
        "com.operasoftware.Opera"
    } else if str_eq(owner_name, "Vivaldi") {
        "com.vivaldi.Vivaldi"
    } else if str_eq(owner_name, "Terminal") {
        "com.apple.Terminal"
    } else if str_eq(owner_name, "iTerm2") {
        "com.googlecode.iterm2"
    } else if str_eq(owner_name, "Zed") {
        "dev.zed.Zed"
    } else if str_eq(owner_name, "Cursor") {
        "com.todesktop.230313mzl4w4u92"
    } else if str_eq(owner_name, "Telegram") {
        "ru.keepcoder.Telegram"
    } else if str_eq(owner_name, "Slack") {
        "com.tinyspeck.slackmacgap"
    } else if str_eq(owner_name, "Code") {
        "com.microsoft.VSCode"
    } else if str_eq(owner_name, "TimeTrack") || str_eq(owner_name, "timetrack") {
        "com.timetrack.app"
    } else {
        return None;
    };
    Some(String::from_str(found))
}

/// The bundle id of an app: the one read from its `.app` bundle
/// (`from_executable`) when there is one, else the well-known id for its owner
/// name, else empty.
pub fn bundle_id_for_pid(from_executable: Option<String>, owner_name: &str) -> (r: String)
    ensures
        r@ == match from_executable {
            Some(b) => b@,
            None => match owner_bundle(owner_name@) {
                Some(b) => b,
                None => Seq::empty(),
            },
        },
{
    match from_executable {
        Some(b) => b,
        None => match bundle_id_from_owner_name(owner_name) {
            Some(b) => b,
            None => String::new(),
        },
    }
}

/// One entry of the on-screen window list, as far as it could be read.
#[derive(Debug, Clone)]
pub struct WindowEntry {
    pub layer: Option<i64>,
    pub pid: Option<i32>,
    pub owner_name: Option<String>,
}

pub open spec fn owner_or_unknown(o: Option<String>) -> Seq<char> {
    match o {
        Some(s) => s@,
        None => "Unknown"@,
    }
}

/// The owner of the frontmost window, scanning from index `k` in window-list
/// order: windows off layer 0, without a positive pid, or owned by the window
/// server or the Dock are skipped; an entry whose layer or pid cannot be read
/// ends the scan without a result.
pub open spec fn frontmost_from(ws: Seq<WindowEntry>, k: int) -> Option<(Seq<char>, i32)>
    decreases ws.len() - k,
{
    if k < 0 || k >= ws.len() {
        None
    } else if ws[k].layer is None {
        None
    } else if ws[k].layer->0 != 0 {
        frontmost_from(ws, k + 1)
    } else if ws[k].pid is None {
        None
    } else if ws[k].pid->0 <= 0 {
        frontmost_from(ws, k + 1)
    } else if owner_or_unknown(ws[k].owner_name) == "Window Server"@ || owner_or_unknown(
        ws[k].owner_name,
    ) == "Dock"@ {
        frontmost_from(ws, k + 1)
    } else {
        Some((owner_or_unknown(ws[k].owner_name), ws[k].pid->0))
    }
}

/// The owner name and pid of the frontmost window in the window list.
pub fn select_frontmost_window(windows: &[WindowEntry]) -> (r: Option<(String, i32)>)
    ensures
        match frontmost_from(windows@, 0) {
            Some((name, pid)) => r matches Some((n, p)) && n@ == name && p == pid,
            None => r is None,
        },
{
    let mut k: usize = 0;
    while k < windows.len()
        invariant
            k <= windows@.len(),
            frontmost_from(windows@, 0) == frontmost_from(windows@, k as int),
        decreases windows.len() - k,
    {
        let w = &windows[k];
        let layer = match w.layer {
            Some(l) => l,
            None => return None,
        };
        if layer != 0 {
            k = k + 1;
            continue;
        }
        let pid = match w.pid {
            Some(p) => p,
            None => return None,
        };
        if pid <= 0 {
            k = k + 1;
            continue;
        }
        let owner = match &w.owner_name {
            Some(n) => n.clone(),
            None => String::from_str("Unknown"),
        };
        if str_eq(owner.as_str(), "Window Server") || str_eq(owner.as_str(), "Dock") {
            k = k + 1;
            continue;
        }
        return Some((owner, pid));
    }
    None
}

/// The nearest of `p` and its ancestors whose extension is `app`.
pub open spec fn app_bundle_of(p: Seq<char>) -> Option<Seq<char>>
    decreases p.len(),
{
    if path_extension_of(p) == Some("app"@) {
        Some(p)
    } else {
        match path_parent_of(p) {
            Some(q) => if q.len() < p.len() {
                app_bundle_of(q)
            } else {
                None
            },
            None => None,
        }
    }
}

/// The `.app` bundle that contains an executable, e.g. `/Applications/Safari.app`
/// for `/Applications/Safari.app/Contents/MacOS/Safari`.
pub fn app_bundle_path(executable: &str) -> (r: Option<String>)
    ensures
        opt_view(r) == app_bundle_of(executable@),
{
    let mut current = String::from_str(executable);
    let app = chars_of("app");
    loop
        invariant
            app@ == "app"@,
            app_bundle_of(current@) == app_bundle_of(executable@),
        decreases current@.len(),
    {
        let is_app = match path_extension(current.as_str()) {
            Some(ext) => chars_eq(chars_of(ext.as_str()).as_slice(), app.as_slice()),
            None => false,
        };
        if is_app {
            return Some(current);
        }
        match path_parent(current.as_str()) {
            Some(parent) => {
                current = parent;
            },
            None => return None,
        }
    }
}

/// The bundle id read from an app's `Info.plist`; an empty id counts as none.
pub fn bundle_id_or_none(bundle_id: String) -> (r: Option<String>)
    ensures
        bundle_id@.len() == 0 ==> r is None,
        bundle_id@.len() > 0 ==> r == Some(bundle_id),
{
    if bundle_id.as_str().is_empty() {
        None
    } else {
        Some(bundle_id)
    }
}

} // verus!
