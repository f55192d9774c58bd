# timetrack

The core of a macOS activity tracker, written in Verus. The functions in
`src/` carry contracts that Verus proves, except a few small wrappers marked
`#[verifier::external_body]` around chrono and `std::path`, whose contracts
are trusted: they name or bound what those calls return.

- `src/parser/` reads context out of window titles and browser URLs (Zed
  projects and files, terminal working directories and git branches, tab
  labels).
- `src/models.rs` holds snapshots, their segment signature, stored activities,
  timestamps, work hours and settings.
- `src/segment.rs` and `src/tracker.rs` decide when a new timeline segment
  starts and what each pass of the tracker loop does.
- `src/monitor.rs` turns what the platform probes found into a raw snapshot.
- `src/export.rs` and `src/commands.rs` format CSV exports, file names,
  durations and timeline rows.
- `src/laws.rs` states and proves properties that span several functions.

`app/` is the desktop shell around the library: the window and tray, the
SQLite store, the macOS probes, files and dialogs. Verus does not see it.
