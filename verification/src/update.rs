//! Messages of the self-updater.

use vstd::prelude::*;

use crate::models::or_empty;
use crate::text::{chars_of, contains_exec, contains_seq};

verus! {

/// The message shown for a failed update: permission problems and signature
/// problems get an explanation in front; other messages are shown as they are.
pub open spec fn update_error_text(msg: Seq<char>) -> Seq<char> {
    if contains_seq(msg, "PermissionDenied"@) || contains_seq(msg, "administrator privileges"@) {
        "Installation fehlgeschlagen (Rechte): "@ + msg
            + "\n\nEin macOS-Passwort-Dialog k\u{f6}nnte im Hintergrund warten. TimeTrack muss in /Applications installiert sein."@
    } else if contains_seq(msg, "signature"@) || contains_seq(msg, "Signature"@) {
        "Update-Signatur ung\u{fc}ltig: "@ + msg
    } else {
        msg
    }
}

/// The message shown for a failed update, given the error's text.
pub fn map_update_error(msg: &str) -> (r: String)
    ensures
        r@ == update_error_text(msg@),
{
    let v = chars_of(msg);
    if contains_exec(v.as_slice(), chars_of("PermissionDenied").as_slice()) || contains_exec(
        v.as_slice(),
        chars_of("administrator privileges").as_slice(),
    ) {
        let mut out = String::from_str("Installation fehlgeschlagen (Rechte): ");
        out.append(msg);
        out.append(
            "\n\nEin macOS-Passwort-Dialog k\u{f6}nnte im Hintergrund warten. TimeTrack muss in /Applications installiert sein.",
        );
        out
    } else if contains_exec(v.as_slice(), chars_of("signature").as_slice()) || contains_exec(
        v.as_slice(),
        chars_of("Signature").as_slice(),
    ) {
        let mut out = String::from_str("Update-Signatur ung\u{fc}ltig: ");
        out.append(msg);
        out
    } else {
        String::from_str(msg)
    }
}

/// Whether the running executable sits inside an installed macOS app bundle.
pub fn is_installed_app_path(executable: &str) -> (r: bool)
    ensures
        r == contains_seq(executable@, ".app/Contents/MacOS/"@),
{
    contains_exec(chars_of(executable).as_slice(), chars_of(".app/Contents/MacOS/").as_slice())
}

/// What a check for updates found.
#[derive(Debug, Clone)]
pub struct UpdateCheckResult {
    pub available: bool,
    pub current_version: String,
    pub version: Option<String>,
    pub notes: Option<String>,
}

/// What happened in the interactive update flow.
#[derive(Debug)]
pub enum UpdateFlowEvent {
    /// The check for updates finished, with its result or its error message.
    Checked(Result<UpdateCheckResult, String>),
    /// The user answered the prompt to install.
    Answered(bool),
    /// Installing failed with this message.
    InstallFailed(String),
}

/// What the update flow does next.
#[derive(Debug, Clone)]
pub enum UpdateFlowAction {
    /// Show the error in the failure dialog; the flow ends.
    ShowError(String),
    /// Show an information dialog; the flow ends.
    ShowInfo { title: String, message: String },
    /// Ask the user whether to install.
    AskToInstall { title: String, message: String },
    /// Download and install the update.
    Install,
    /// End without doing anything.
    Finish,
}

/// The prompt that offers an available update.
pub open spec fn install_prompt(version: Option<String>, notes: Option<String>) -> Seq<char> {
    "Update "@ + or_empty(version) + " ist verf\u{fc}gbar."@ + match notes {
        Some(t) => "\n\n"@ + t@,
        None => Seq::empty(),
    }
        + "\n\nJetzt herunterladen und installieren? Die App startet danach neu.\n\nHinweis: macOS kann danach einen Passwort-Dialog anzeigen."@
}

/// The explanation shown when updates are confirmed outside an installed app.
pub open spec fn dev_mode_text() -> Seq<char> {
    "OTA-Updates funktionieren nur in der installierten TimeTrack.app (z. B. in /Applications).\n\nMit `npm run tauri dev` kannst du die Update-Suche testen, aber nicht installieren."@
}

/// One step of the interactive update flow: a failed check or install shows
/// its error; no update says the current version is up to date; an update is
/// offered for confirmation; a declined offer ends the flow; an accepted one
/// installs, unless the app is not an installed app bundle, which is
/// explained instead.
pub fn update_flow_step(event: UpdateFlowEvent, installed_app: bool) -> (r: UpdateFlowAction)
    ensures
        match event {
            UpdateFlowEvent::Checked(Err(e)) => r matches UpdateFlowAction::ShowError(m) && m@
                == e@,
            UpdateFlowEvent::Checked(Ok(c)) => if !c.available {
                r matches UpdateFlowAction::ShowInfo { title, message } && title@ == "Kein Update"@
                    && message@ == "TimeTrack "@ + c.current_version@ + " ist aktuell."@
            } else {
                r matches UpdateFlowAction::AskToInstall { title, message } && title@
                    == "Update verf\u{fc}gbar"@ && message@ == install_prompt(c.version, c.notes)
            },
            UpdateFlowEvent::Answered(yes) => if !yes {
                r matches UpdateFlowAction::Finish
            } else if installed_app {
                r matches UpdateFlowAction::Install
            } else {
                r matches UpdateFlowAction::ShowInfo { title, message } && title@ == "Dev-Modus"@
                    && message@ == dev_mode_text()
            },
            UpdateFlowEvent::InstallFailed(e) => r matches UpdateFlowAction::ShowError(m) && m@
                == e@,
        },
{
    match event {
        UpdateFlowEvent::Checked(Err(e)) => UpdateFlowAction::ShowError(e),
        UpdateFlowEvent::Checked(Ok(c)) => {
            if !c.available {
                let mut message = String::from_str("TimeTrack ");
                message.append(c.current_version.as_str());
                message.append(" ist aktuell.");
                UpdateFlowAction::ShowInfo { title: String::from_str("Kein Update"), message }
            } else {
                let mut message = String::from_str("Update ");
                match &c.version {
                    Some(v) => message.append(v.as_str()),
                    None => {},
                }
                message.append(" ist verf\u{fc}gbar.");
                match &c.notes {
                    Some(t) => {
                        message.append("\n\n");
                        message.append(t.as_str());
                    },
                    None => {},
                }
                message.append(
                    "\n\nJetzt herunterladen und installieren? Die App startet danach neu.\n\nHinweis: macOS kann danach einen Passwort-Dialog anzeigen.",
                );
                proof {
                    assert(message@ =~= install_prompt(c.version, c.notes));
                }
                UpdateFlowAction::AskToInstall {
                    title: String::from_str("Update verf\u{fc}gbar"),
                    message,
                }
            }
        },
        UpdateFlowEvent::Answered(yes) => {
            if !yes {
                UpdateFlowAction::Finish
            } else if installed_app {
                UpdateFlowAction::Install
            } else {
                UpdateFlowAction::ShowInfo {
                    title: String::from_str("Dev-Modus"),
                    message: String::from_str(
                        "OTA-Updates funktionieren nur in der installierten TimeTrack.app (z. B. in /Applications).\n\nMit `npm run tauri dev` kannst du die Update-Suche testen, aber nicht installieren.",
                    ),
                }
            }
        },
        UpdateFlowEvent::InstallFailed(e) => UpdateFlowAction::ShowError(e),
    }
}

} // verus!
