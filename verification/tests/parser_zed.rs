use timetrack::parser::zed::parse_zed_title;

#[test]
fn parses_em_dash_title() {
    let ctx = parse_zed_title("channel.rs — app").unwrap();
    assert_eq!(ctx.file, "channel.rs");
    assert_eq!(ctx.project, "app");
}

#[test]
fn parses_hyphen_title() {
    let ctx = parse_zed_title("main.rs - timetrack").unwrap();
    assert_eq!(ctx.file, "main.rs");
    assert_eq!(ctx.project, "timetrack");
}

#[test]
fn rejects_plain_title() {
    assert!(parse_zed_title("timetrack").is_none());
}

#[test]
fn parses_en_dash_title() {
    let ctx = parse_zed_title("lib.rs – timetrack").unwrap();
    assert_eq!(ctx.file, "lib.rs");
    assert_eq!(ctx.project, "timetrack");
}

#[test]
fn trims_whitespace() {
    let ctx = parse_zed_title("  main.rs  —  timetrack  ").unwrap();
    assert_eq!(ctx.file, "main.rs");
    assert_eq!(ctx.project, "timetrack");
}

#[test]
fn rejects_empty_parts() {
    assert!(parse_zed_title("— timetrack").is_none());
    assert!(parse_zed_title("main.rs —").is_none());
}

fn with_regex(title: &str) -> Option<(String, String)> {
    let re = regex::Regex::new(r"^(.+?)\s*[—–-]\s*(.+)$").unwrap();
    let caps = re.captures(title.trim())?;
    let file = caps.get(1)?.as_str().trim().to_string();
    let project = caps.get(2)?.as_str().trim().to_string();
    if file.is_empty() || project.is_empty() {
        return None;
    }
    Some((file, project))
}

#[test]
fn zed_parser_agrees_with_the_title_pattern() {
    let titles = [
        "a-b",
        "a - b - c",
        "my-file.rs — proj",
        "x —\u{a0}y",
        "x\n- y",
        "x - y\nz",
        "- - -",
        "--",
        "a -",
        " - a",
        "a — — b",
        "file\u{2003}—\u{2003}proj",
        "ä-ö",
        "",
        "   ",
        "a\r - b",
        "only—",
        "—only",
        "a-\n",
        "a -\tb\t- c",
    ];
    for title in titles {
        let ours = parse_zed_title(title).map(|c| (c.file, c.project));
        assert_eq!(ours, with_regex(title), "title {:?}", title);
    }
}

#[test]
fn composed_titles_parse_back() {
    for (file, project) in [("main.rs", "timetrack"), ("a b.txt", "my-app — v2"), ("x", "y")] {
        let title = format!("{file} — {project}");
        let ctx = parse_zed_title(&title).unwrap();
        assert_eq!((ctx.file.as_str(), ctx.project.as_str()), (file, project));
    }
}
