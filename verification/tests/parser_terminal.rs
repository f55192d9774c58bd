use timetrack::parser::terminal::{
    hook_context, hook_install_script, latest_hook_line, parse_terminal_title,
};

#[test]
fn parses_branch_in_parens() {
    let ctx = parse_terminal_title("daniel@mac:~/projects/timetrack (feature/auth)").unwrap();
    assert_eq!(ctx.git_branch.as_deref(), Some("feature/auth"));
    assert_eq!(ctx.cwd.as_deref(), Some("~/projects/timetrack"));
}

#[test]
fn parses_starship_git() {
    let ctx = parse_terminal_title("~/projects/timetrack main git:feature/auth").unwrap();
    assert_eq!(ctx.git_branch.as_deref(), Some("feature/auth"));
    assert_eq!(ctx.cwd.as_deref(), Some("~/projects/timetrack main git:feature/auth"));
}

#[test]
fn parses_branch_in_brackets() {
    let ctx = parse_terminal_title("timetrack [main]").unwrap();
    assert_eq!(ctx.git_branch.as_deref(), Some("main"));
}

#[test]
fn rejects_title_without_branch() {
    assert!(parse_terminal_title("daniel@mac:~/projects/timetrack").is_none());
}

#[test]
fn rejects_host_like_parens() {
    assert!(parse_terminal_title("shell (daniel@mac)").is_none());
}

#[test]
fn hook_install_script_contains_precmd() {
    let script = hook_install_script();
    assert!(script.contains("precmd_functions"));
    assert!(script.contains("terminal-state.jsonl"));
}

fn branch_with_regex(title: &str) -> Option<String> {
    let parens = regex::Regex::new(r"\(([^)]+)\)\s*$").unwrap();
    let brackets = regex::Regex::new(r"\[([^\]]+)\]").unwrap();
    let starship = regex::Regex::new(r"git:(\S+)").unwrap();
    let looks = |v: &str| !v.is_empty() && !v.contains('@') && !v.contains(':') && v.len() < 120;
    if let Some(c) = starship.captures(title) {
        return Some(c[1].to_string());
    }
    if let Some(c) = brackets.captures(title) {
        if looks(&c[1]) {
            return Some(c[1].to_string());
        }
    }
    if let Some(c) = parens.captures(title) {
        if looks(&c[1]) {
            return Some(c[1].to_string());
        }
    }
    None
}

#[test]
fn branch_parser_agrees_with_the_title_patterns() {
    let long = format!("x ({})", "b".repeat(119));
    let too_long = format!("x ({})", "b".repeat(120));
    let wide = format!("x [{}]", "ä".repeat(60));
    let titles = [
        "git: main git:dev",
        "git:",
        "xgit:a\tb",
        "[] [main]",
        "[a@b] (dev)",
        "[a:b]",
        "(x) (y)  ",
        "(x) (y) z",
        "((a) ",
        "a (b (c)",
        "()",
        "(a)\n",
        "[unterminated",
        "git:ä[x]",
        "x (a:b)",
        long.as_str(),
        too_long.as_str(),
        wide.as_str(),
        "",
    ];
    for title in titles {
        let ours = parse_terminal_title(title).and_then(|c| c.git_branch);
        assert_eq!(ours, branch_with_regex(title), "title {:?}", title);
    }
}

#[test]
fn cwd_after_colon_or_whole_title() {
    let ctx = parse_terminal_title("user@host:/srv/app[x] (main)").unwrap();
    assert_eq!(ctx.cwd.as_deref(), Some("/srv/app"));
    let ctx = parse_terminal_title("/tmp (dev)").unwrap();
    assert_eq!(ctx.cwd.as_deref(), Some("/tmp (dev)"));
    let ctx = parse_terminal_title("user@host: /srv/app (main)").unwrap();
    assert_eq!(ctx.cwd, None);
    let ctx = parse_terminal_title("host: repo (dev)").unwrap();
    assert_eq!(ctx.cwd, None);
    let ctx = parse_terminal_title("shell [dev]").unwrap();
    assert_eq!(ctx.cwd, None);
}

#[test]
fn latest_hook_line_reads_last_nonblank_line() {
    let content = "{\"cwd\":\"/projects/a\",\"branch\":\"main\",\"ts\":1}\n{\"cwd\":\"/projects/b\",\"branch\":\"feature/auth\",\"ts\":2}\n";
    assert_eq!(
        latest_hook_line(content).as_deref(),
        Some("{\"cwd\":\"/projects/b\",\"branch\":\"feature/auth\",\"ts\":2}")
    );
    assert_eq!(latest_hook_line("a\r\n  \n\t\n").as_deref(), Some("a"));
    assert_eq!(latest_hook_line("x\ny\r"), Some("y\r".to_string()));
    assert_eq!(latest_hook_line(" \n\n"), None);
    assert_eq!(latest_hook_line(""), None);
}

#[test]
fn latest_hook_line_agrees_with_std_lines() {
    for content in ["a\nb", "a\n\n", "\r\n", "x\r\ny\r\n \r\n", "only", "\n\nz\n"] {
        let expected = content.lines().rev().find(|l| !l.trim().is_empty()).map(String::from);
        assert_eq!(latest_hook_line(content), expected, "content {:?}", content);
    }
}

/// The hook file's latest line, read as the app reads it (JSON with `cwd` and
/// `branch`).
fn hook_fields(content: &str) -> Option<(Option<String>, Option<String>)> {
    let line = latest_hook_line(content)?;
    let value: serde_json::Value = serde_json::from_str(&line).ok()?;
    let ctx = hook_context(
        value.get("cwd").and_then(|v| v.as_str()).map(String::from),
        value.get("branch").and_then(|v| v.as_str()).map(String::from),
    );
    Some((ctx.cwd, ctx.git_branch))
}

#[test]
fn reads_latest_hook_line() {
    let content = "{\"cwd\":\"/projects/a\",\"branch\":\"main\",\"ts\":1}\n{\"cwd\":\"/projects/b\",\"branch\":\"feature/auth\",\"ts\":2}\n";
    let (cwd, branch) = hook_fields(content).unwrap();
    assert_eq!(cwd.as_deref(), Some("/projects/b"));
    assert_eq!(branch.as_deref(), Some("feature/auth"));
}

#[test]
fn hook_reader_skips_blank_lines_at_end() {
    let content = "{\"cwd\":\"/x\",\"branch\":\"dev\",\"ts\":3}\n\n";
    let (_, branch) = hook_fields(content).unwrap();
    assert_eq!(branch.as_deref(), Some("dev"));
}

#[test]
fn empty_hook_branch_means_no_branch() {
    let ctx = hook_context(Some("/x".into()), Some(String::new()));
    assert_eq!(ctx.cwd.as_deref(), Some("/x"));
    assert_eq!(ctx.git_branch, None);
    let ctx = hook_context(None, Some("dev".into()));
    assert_eq!(ctx.cwd, None);
    assert_eq!(ctx.git_branch.as_deref(), Some("dev"));
    assert_eq!(hook_context(None, None).git_branch, None);
}
