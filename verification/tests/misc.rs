use timetrack::models::{ActivitySnapshot, TrackerSettings};
use timetrack::monitor::{MonitorError, RawSnapshot};
use timetrack::parser::terminal::TerminalContext;
use timetrack::state::settings_path_for_db;
use timetrack::tracker::snapshot_from_capture;
use timetrack::update::{
    is_installed_app_path, map_update_error, update_flow_step, UpdateCheckResult, UpdateFlowAction,
    UpdateFlowEvent,
};

#[test]
fn update_errors_get_explanations() {
    assert_eq!(
        map_update_error("PermissionDenied: x"),
        "Installation fehlgeschlagen (Rechte): PermissionDenied: x\n\nEin macOS-Passwort-Dialog könnte im Hintergrund warten. TimeTrack muss in /Applications installiert sein."
    );
    assert_eq!(map_update_error("bad Signature"), "Update-Signatur ungültig: bad Signature");
    assert_eq!(map_update_error("network down"), "network down");
}

#[test]
fn installed_app_paths() {
    assert!(is_installed_app_path("/Applications/TimeTrack.app/Contents/MacOS/timetrack"));
    assert!(!is_installed_app_path("/home/u/target/debug/timetrack"));
}

#[test]
fn settings_live_next_to_the_database() {
    assert_eq!(settings_path_for_db("/data/timetrack/timeline.db"), "/data/timetrack/settings.json");
    assert_eq!(settings_path_for_db("timeline.db"), "settings.json");
    assert_eq!(settings_path_for_db("/"), "./settings.json");
}

#[test]
fn capture_failures_become_unknown_app() {
    let snap = snapshot_from_capture(Err(MonitorError::UnsupportedPlatform), None);
    assert_eq!(snap.app_name, "Unknown");
    assert!(!snap.is_idle);
    assert!(snap.window_title.is_empty());
}

#[test]
fn captures_are_enriched() {
    let raw = RawSnapshot {
        app_name: "Terminal".into(),
        app_bundle_id: "com.apple.Terminal".into(),
        window_title: "me@mac:~/code (main)".into(),
        url: None,
        page_title: Some("me@mac:~/code (main)".into()),
    };
    let snap = snapshot_from_capture(Ok(raw.clone()), None);
    assert_eq!(snap.context.git_branch.as_deref(), Some("main"));
    assert_eq!(snap.context.cwd.as_deref(), Some("~/code"));
    let hook = TerminalContext { cwd: Some("/x".into()), git_branch: Some("dev".into()) };
    let snap = snapshot_from_capture(Ok(raw), Some(hook));
    assert_eq!(snap.context.git_branch.as_deref(), Some("dev"));
    assert!(!ActivitySnapshot::idle().signature().is_empty());
    assert_eq!(TrackerSettings::default().work_hours.start_minutes, 540);
}

fn check_result(available: bool, notes: Option<&str>) -> UpdateCheckResult {
    UpdateCheckResult {
        available,
        current_version: "0.3.1".into(),
        version: if available { Some("0.4.0".into()) } else { None },
        notes: notes.map(String::from),
    }
}

#[test]
fn update_flow_decides_each_step() {
    match update_flow_step(UpdateFlowEvent::Checked(Err("offline".into())), true) {
        UpdateFlowAction::ShowError(m) => assert_eq!(m, "offline"),
        other => panic!("{other:?}"),
    }
    match update_flow_step(UpdateFlowEvent::Checked(Ok(check_result(false, None))), true) {
        UpdateFlowAction::ShowInfo { title, message } => {
            assert_eq!(title, "Kein Update");
            assert_eq!(message, "TimeTrack 0.3.1 ist aktuell.");
        }
        other => panic!("{other:?}"),
    }
    match update_flow_step(UpdateFlowEvent::Checked(Ok(check_result(true, Some("Fixes")))), true) {
        UpdateFlowAction::AskToInstall { title, message } => {
            assert_eq!(title, "Update verfügbar");
            assert_eq!(
                message,
                "Update 0.4.0 ist verfügbar.\n\nFixes\n\nJetzt herunterladen und installieren? Die App startet danach neu.\n\nHinweis: macOS kann danach einen Passwort-Dialog anzeigen."
            );
        }
        other => panic!("{other:?}"),
    }
    match update_flow_step(UpdateFlowEvent::Checked(Ok(check_result(true, None))), true) {
        UpdateFlowAction::AskToInstall { message, .. } => {
            assert!(message.starts_with("Update 0.4.0 ist verfügbar.\n\nJetzt herunterladen"))
        }
        other => panic!("{other:?}"),
    }
    assert!(matches!(update_flow_step(UpdateFlowEvent::Answered(false), true), UpdateFlowAction::Finish));
    assert!(matches!(update_flow_step(UpdateFlowEvent::Answered(true), true), UpdateFlowAction::Install));
    match update_flow_step(UpdateFlowEvent::Answered(true), false) {
        UpdateFlowAction::ShowInfo { title, message } => {
            assert_eq!(title, "Dev-Modus");
            assert!(message.starts_with("OTA-Updates funktionieren nur in der installierten TimeTrack.app (z. B. in /Applications).\n\nMit `npm run tauri dev`"));
        }
        other => panic!("{other:?}"),
    }
    match update_flow_step(UpdateFlowEvent::InstallFailed("Update-Signatur ungültig: x".into()), true) {
        UpdateFlowAction::ShowError(m) => assert_eq!(m, "Update-Signatur ungültig: x"),
        other => panic!("{other:?}"),
    }
}
