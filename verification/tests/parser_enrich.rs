use timetrack::models::{ActivityContext, ActivitySnapshot};
use timetrack::parser::enrich_snapshot;
use timetrack::parser::terminal::TerminalContext;

#[test]
fn enriches_zed_snapshot() {
    let snapshot = ActivitySnapshot {
        app_name: "Zed".into(),
        app_bundle_id: "dev.zed.Zed".into(),
        window_title: "main.rs — timetrack".into(),
        context: ActivityContext::default(),
        is_idle: false,
    };

    let enriched = enrich_snapshot(snapshot, None);
    assert_eq!(enriched.context.project.as_deref(), Some("timetrack"));
    assert_eq!(enriched.context.file.as_deref(), Some("main.rs"));
}

#[test]
fn enriches_terminal_from_title() {
    let snapshot = ActivitySnapshot {
        app_name: "Terminal".into(),
        app_bundle_id: "com.apple.Terminal".into(),
        window_title: "daniel@mac:~/code (main)".into(),
        context: ActivityContext::default(),
        is_idle: false,
    };

    let enriched = enrich_snapshot(snapshot, None);
    assert_eq!(enriched.context.git_branch.as_deref(), Some("main"));
}

#[test]
fn normalizes_browser_url() {
    let snapshot = ActivitySnapshot {
        app_name: "Chrome".into(),
        app_bundle_id: "com.google.Chrome".into(),
        window_title: "GitHub".into(),
        context: ActivityContext {
            url: Some("github.com/user/repo".into()),
            ..Default::default()
        },
        is_idle: false,
    };

    let enriched = enrich_snapshot(snapshot, None);
    assert_eq!(
        enriched.context.url.as_deref(),
        Some("https://github.com/user/repo")
    );
}

#[test]
fn leaves_unrelated_apps_unchanged() {
    let snapshot = ActivitySnapshot {
        app_name: "Slack".into(),
        app_bundle_id: "com.tinyspeck.slackmacgap".into(),
        window_title: "#general".into(),
        context: ActivityContext::default(),
        is_idle: false,
    };

    let enriched = enrich_snapshot(snapshot, None);
    assert!(enriched.context.project.is_none());
    assert!(enriched.context.git_branch.is_none());
    assert_eq!(enriched.window_title, "#general");
}

#[test]
fn hook_state_wins_over_terminal_title() {
    let snapshot = ActivitySnapshot {
        app_name: "iTerm2".into(),
        app_bundle_id: "com.googlecode.iterm2".into(),
        window_title: "x (main)".into(),
        context: ActivityContext::default(),
        is_idle: false,
    };
    let hook = TerminalContext { cwd: Some("/projects/b".into()), git_branch: None };
    let enriched = enrich_snapshot(snapshot, Some(hook));
    assert_eq!(enriched.context.cwd.as_deref(), Some("/projects/b"));
    assert_eq!(enriched.context.git_branch, None);
}

#[test]
fn hook_state_is_ignored_for_other_apps_and_bad_urls_are_dropped() {
    let snapshot = ActivitySnapshot {
        app_name: "Zed".into(),
        app_bundle_id: "dev.zed.Zed-Preview".into(),
        window_title: "plain".into(),
        context: ActivityContext {
            url: Some("not a url".into()),
            cwd: Some("/keep".into()),
            ..Default::default()
        },
        is_idle: false,
    };
    let hook = TerminalContext { cwd: Some("/other".into()), git_branch: Some("b".into()) };
    let enriched = enrich_snapshot(snapshot, Some(hook));
    assert_eq!(enriched.context.cwd.as_deref(), Some("/keep"));
    assert_eq!(enriched.context.url, None);
    assert_eq!(enriched.context.project, None);
}
