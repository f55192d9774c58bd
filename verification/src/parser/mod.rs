//! Context extraction from window titles and browser URLs.

pub mod browser;
pub mod terminal;
pub mod zed;

use vstd::prelude::*;

use crate::models::ActivitySnapshot;
use crate::parser::browser::{normalize_url, normalized_url};
use crate::parser::terminal::{parse_terminal_title, title_branch, title_cwd, TerminalContext};
use crate::parser::zed::{parse_zed_title, zed_title_fields};
use crate::text::{opt_view, str_eq};

verus! {

/// Bundle ids of the Zed editor.
pub open spec fn is_zed_bundle(b: Seq<char>) -> bool {
    b == "dev.zed.Zed"@ || b == "dev.zed.Zed-Preview"@
}

/// Bundle ids of the supported terminal apps.
pub open spec fn is_terminal_bundle(b: Seq<char>) -> bool {
    ||| b == "com.apple.Terminal"@
    ||| b == "com.googlecode.iterm2"@
    ||| b == "dev.warp.Warp-Stable"@
    ||| b == "dev.warp.Warp"@
    ||| b == "net.kovidgoyal.kitty"@
    ||| b == "com.github.wez.wezterm"@
}

pub fn is_zed_bundle_id(bundle_id: &str) -> (r: bool)
    ensures
        r == is_zed_bundle(bundle_id@),
{
    str_eq(bundle_id, "dev.zed.Zed") || str_eq(bundle_id, "dev.zed.Zed-Preview")
}

pub fn is_terminal_bundle_id(bundle_id: &str) -> (r: bool)
    ensures
        r == is_terminal_bundle(bundle_id@),
{
    str_eq(bundle_id, "com.apple.Terminal") || str_eq(bundle_id, "com.googlecode.iterm2")
        || str_eq(bundle_id, "dev.warp.Warp-Stable") || str_eq(bundle_id, "dev.warp.Warp")
        || str_eq(bundle_id, "net.kovidgoyal.kitty") || str_eq(bundle_id, "com.github.wez.wezterm")
}

/// `r` is `snapshot` with what the title and the terminal hook tell added.
///
/// For Zed, project and file come from the title. For a terminal, the working
/// directory and branch come from the latest terminal-hook state when there is
/// one, else from the title when it shows a branch. A URL is normalized (and
/// dropped when it is not one). Nothing else changes.
pub open spec fn enriched_as(
    snapshot: ActivitySnapshot,
    hook_state: Option<TerminalContext>,
    r: ActivitySnapshot,
) -> bool {
    &&& r.app_name == snapshot.app_name
    &&& r.app_bundle_id == snapshot.app_bundle_id
    &&& r.window_title == snapshot.window_title
    &&& r.is_idle == snapshot.is_idle
    &&& r.context.page_title == snapshot.context.page_title
    &&& if is_zed_bundle(snapshot.app_bundle_id@) && zed_title_fields(snapshot.window_title@) is Some {
        let (file, project) = zed_title_fields(snapshot.window_title@)->0;
        opt_view(r.context.file) == Some(file) && opt_view(r.context.project) == Some(project)
    } else {
        r.context.file == snapshot.context.file && r.context.project == snapshot.context.project
    }
    &&& if is_terminal_bundle(snapshot.app_bundle_id@) && hook_state is Some {
        r.context.cwd == hook_state->0.cwd && r.context.git_branch == hook_state->0.git_branch
    } else if is_terminal_bundle(snapshot.app_bundle_id@) && title_branch(snapshot.window_title@) is Some {
        opt_view(r.context.cwd) == title_cwd(snapshot.window_title@) && opt_view(
            r.context.git_branch,
        ) == title_branch(snapshot.window_title@)
    } else {
        r.context.cwd == snapshot.context.cwd && r.context.git_branch == snapshot.context.git_branch
    }
    &&& match snapshot.context.url {
        Some(u) => opt_view(r.context.url) == normalized_url(u@),
        None => r.context.url is None,
    }
}

/// Adds what the window title and the terminal hook tell about a snapshot
/// (see [`enriched_as`]); `hook_state` is the latest terminal-hook state, which
/// the caller reads from disk.
pub fn enrich_snapshot(snapshot: ActivitySnapshot, hook_state: Option<TerminalContext>) -> (r:
    ActivitySnapshot)
    ensures
        enriched_as(snapshot, hook_state, r),
{
    let mut snapshot = snapshot;
    if is_zed_bundle_id(snapshot.app_bundle_id.as_str()) {
        match parse_zed_title(snapshot.window_title.as_str()) {
            Some(parsed) => {
                snapshot.context.project = Some(parsed.project);
                snapshot.context.file = Some(parsed.file);
            },
            None => {},
        }
    }
    if is_terminal_bundle_id(snapshot.app_bundle_id.as_str()) {
        match hook_state {
            Some(hook) => {
                snapshot.context.cwd = hook.cwd;
                snapshot.context.git_branch = hook.git_branch;
            },
            None => match parse_terminal_title(snapshot.window_title.as_str()) {
                Some(parsed) => {
                    snapshot.context.cwd = parsed.cwd;
                    snapshot.context.git_branch = parsed.git_branch;
                },
                None => {},
            },
        }
    }
    let url = match &snapshot.context.url {
        Some(u) => normalize_url(u.as_str()),
        None => None,
    };
    snapshot.context.url = url;
    snapshot
}

} // verus!
