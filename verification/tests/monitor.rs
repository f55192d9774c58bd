use timetrack::monitor::{
    accessibility_effective, app_bundle_path, browser_info, bundle_id_for_pid, bundle_id_from_owner_name, capture_snapshot,
    frontmost_app, is_browser_bundle_id, looks_like_url, select_frontmost_window,
    snapshot_from_probes, BrowserInfo, FrontmostApp, MacMonitorError, MonitorError, RawSnapshot,
    WindowEntry, WindowInfo,
};

#[test]
fn raw_snapshot_stub_has_empty_optional_fields() {
    let snap = RawSnapshot::stub("Zed");
    assert_eq!(snap.app_name, "Zed");
    assert!(snap.app_bundle_id.is_empty());
    assert!(snap.url.is_none());
}

#[test]
fn capture_snapshot_unsupported_off_macos() {
    let err = capture_snapshot(None).unwrap_err();
    assert!(matches!(err, MonitorError::UnsupportedPlatform));
}

#[test]
fn resolves_known_owner_names() {
    assert_eq!(
        bundle_id_from_owner_name("Safari"),
        Some("com.apple.Safari".into())
    );
}

#[test]
fn finds_app_bundle_in_path() {
    let path = "/Applications/Safari.app/Contents/MacOS/Safari";
    assert_eq!(
        app_bundle_path(path),
        Some("/Applications/Safari.app".to_string())
    );
}

#[test]
fn app_bundle_path_without_bundle() {
    assert_eq!(app_bundle_path("/usr/bin/ls"), None);
    assert_eq!(app_bundle_path("Foo.app"), Some("Foo.app".to_string()));
    assert_eq!(app_bundle_path(""), None);
}

#[test]
fn capture_errors_carry_their_message() {
    let err = capture_snapshot(Some(Err(MacMonitorError::NoFrontmostApp))).unwrap_err();
    assert_eq!(err.message(), "monitor error: no frontmost application");
    assert_eq!(
        MonitorError::UnsupportedPlatform.message(),
        "platform monitor is only available on macOS"
    );
    let ok = capture_snapshot(Some(Ok(RawSnapshot::stub("A")))).unwrap();
    assert_eq!(ok.app_name, "A");
}

fn app(name: &str, bundle: &str) -> FrontmostApp {
    FrontmostApp { name: name.into(), bundle_id: bundle.into(), pid: 7 }
}

#[test]
fn snapshot_from_probes_respects_access_and_browser() {
    let window = Some(WindowInfo { title: Some("GitHub".into()) });
    let browser = Some(BrowserInfo { url: Some("https://github.com".into()), title: None });

    let untrusted = snapshot_from_probes(app("Chrome", "com.google.Chrome"), false, window.clone(), browser.clone());
    assert_eq!(untrusted.window_title, "");
    assert_eq!(untrusted.url, None);
    assert_eq!(untrusted.page_title, None);

    let trusted = snapshot_from_probes(app("Chrome", "com.google.Chrome"), true, window.clone(), browser.clone());
    assert_eq!(trusted.window_title, "GitHub");
    assert_eq!(trusted.url.as_deref(), Some("https://github.com"));
    assert_eq!(trusted.page_title.as_deref(), Some("GitHub"));

    let titled = Some(BrowserInfo { url: None, title: Some("Tab".into()) });
    let no_bundle = snapshot_from_probes(app("X", ""), true, window.clone(), titled.clone());
    assert_eq!(no_bundle.page_title.as_deref(), Some("GitHub"));
    let with_bundle = snapshot_from_probes(app("X", "x"), true, None, titled);
    assert_eq!(with_bundle.page_title.as_deref(), Some("Tab"));
    assert_eq!(with_bundle.window_title, "");
}

#[test]
fn browser_info_only_for_browsers_with_url() {
    assert!(is_browser_bundle_id("com.apple.Safari"));
    assert!(!is_browser_bundle_id("com.apple.Terminal"));
    let info = browser_info("com.brave.Browser", Some("https://x.y".into()), "Title").unwrap();
    assert_eq!(info.url.as_deref(), Some("https://x.y"));
    assert_eq!(info.title.as_deref(), Some("Title"));
    assert!(browser_info("com.brave.Browser", None, "Title").is_none());
    assert!(browser_info("dev.zed.Zed", Some("https://x.y".into()), "Title").is_none());
}

#[test]
fn looks_like_url_examples() {
    assert!(looks_like_url("http://a"));
    assert!(looks_like_url("github.com"));
    assert!(!looks_like_url("Search or type"));
    assert!(!looks_like_url("a. b"));
}

#[test]
fn bundle_id_prefers_the_executable() {
    assert_eq!(bundle_id_for_pid(Some("org.x".into()), "Safari"), "org.x");
    assert_eq!(bundle_id_for_pid(None, "timetrack"), "com.timetrack.app");
    assert_eq!(bundle_id_for_pid(None, "Unknown App"), "");
    assert_eq!(bundle_id_from_owner_name("Code"), Some("com.microsoft.VSCode".into()));
}

fn entry(layer: Option<i64>, pid: Option<i32>, owner: Option<&str>) -> WindowEntry {
    WindowEntry { layer, pid, owner_name: owner.map(String::from) }
}

#[test]
fn frontmost_window_skips_system_windows() {
    let windows = [
        entry(Some(25), Some(1), Some("Menubar")),
        entry(Some(0), Some(0), Some("Zero")),
        entry(Some(0), Some(5), Some("Dock")),
        entry(Some(0), Some(6), Some("Window Server")),
        entry(Some(0), Some(9), None),
        entry(Some(0), Some(10), Some("Zed")),
    ];
    assert_eq!(select_frontmost_window(&windows), Some(("Unknown".to_string(), 9)));
    assert_eq!(select_frontmost_window(&windows[5..]), Some(("Zed".to_string(), 10)));
    assert_eq!(select_frontmost_window(&[entry(None, Some(3), Some("A")), entry(Some(0), Some(4), Some("B"))]), None);
    assert_eq!(select_frontmost_window(&[entry(Some(0), None, Some("A"))]), None);
    assert_eq!(select_frontmost_window(&[]), None);
}

#[test]
fn frontmost_app_reports_missing_window() {
    assert!(matches!(frontmost_app(None), Err(MacMonitorError::NoFrontmostApp)));
    assert_eq!(frontmost_app(Some(app("Zed", "dev.zed.Zed"))).unwrap().pid, 7);
}

#[test]
fn accessibility_effective_from_trust_or_capture() {
    let err: Result<RawSnapshot, MonitorError> = Err(MonitorError::UnsupportedPlatform);
    assert!(accessibility_effective(true, &err));
    assert!(!accessibility_effective(false, &err));
    assert!(!accessibility_effective(false, &Ok(RawSnapshot::stub("Finder"))));
    let mut titled = RawSnapshot::stub("Zed");
    titled.window_title = "main.rs".into();
    assert!(accessibility_effective(false, &Ok(titled)));
    let mut with_url = RawSnapshot::stub("Safari");
    with_url.url = Some("https://example.com".into());
    assert!(accessibility_effective(false, &Ok(with_url)));
    let mut with_page = RawSnapshot::stub("Safari");
    with_page.page_title = Some("Example".into());
    assert!(accessibility_effective(false, &Ok(with_page)));
}
