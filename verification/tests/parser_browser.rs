use timetrack::parser::browser::{display_host, display_label, normalize_url};

#[test]
fn normalizes_bare_domain() {
    assert_eq!(
        normalize_url("github.com/user/repo").as_deref(),
        Some("https://github.com/user/repo")
    );
}

#[test]
fn keeps_https_url() {
    assert_eq!(
        normalize_url("https://docs.rs/trait.Iterator").as_deref(),
        Some("https://docs.rs/trait.Iterator")
    );
}

#[test]
fn returns_none_for_empty_or_invalid() {
    assert_eq!(normalize_url(""), None);
    assert_eq!(normalize_url("   "), None);
    assert_eq!(normalize_url("not a url"), None);
}

#[test]
fn display_host_strips_scheme_and_path() {
    assert_eq!(
        display_host("https://github.com/user/repo/pull/1"),
        "github.com"
    );
}

#[test]
fn display_label_uses_window_title_for_gmail_chat() {
    assert_eq!(
        display_label(
            Some("https://mail.google.com/mail/u/0/#chat/dm/5dErPSAAAAE"),
            None,
            "Alice Example - Gmail"
        ),
        Some("Google Chat · Alice Example".into())
    );
}

#[test]
fn display_label_falls_back_for_gmail_chat_without_title() {
    assert_eq!(
        display_label(
            Some("https://mail.google.com/mail/u/0/#chat/dm/5dErPSAAAAE"),
            None,
            ""
        ),
        Some("Google Chat · Direktnachricht".into())
    );
}

#[test]
fn normalize_url_trims_and_keeps_http() {
    assert_eq!(normalize_url("  http://x.org/a  ").as_deref(), Some("http://x.org/a"));
    assert_eq!(normalize_url("\tdocs.rs\n").as_deref(), Some("https://docs.rs"));
    assert_eq!(normalize_url("a.b c"), None);
    assert_eq!(normalize_url("localhost"), None);
}

#[test]
fn normalize_url_is_idempotent_on_examples() {
    for input in ["github.com/x", " https://a.b ", "http://c.d", "e.f"] {
        let once = normalize_url(input).unwrap();
        assert_eq!(normalize_url(&once), Some(once.clone()));
    }
}

#[test]
fn display_host_strips_repeated_schemes() {
    assert_eq!(display_host("https://https://a.com/x"), "a.com");
    assert_eq!(display_host("http://b.org"), "b.org");
    assert_eq!(display_host("c.net/path"), "c.net");
    assert_eq!(display_host(""), "");
}

#[test]
fn display_label_uses_page_title_then_kinds() {
    let dm = "https://mail.google.com/mail/u/0/#chat/dm/x";
    let space = "https://mail.google.com/mail/u/0/#chat/space/y";
    assert_eq!(
        display_label(Some(dm), Some("  Bob – Gmail"), "ignored"),
        Some("Google Chat · Bob".into())
    );
    assert_eq!(
        display_label(Some(dm), Some("Carol - Google Mail"), ""),
        Some("Google Chat · Carol".into())
    );
    assert_eq!(
        display_label(Some(space), Some(space), "https://x"),
        Some("Google Chat · Gruppe".into())
    );
    assert_eq!(
        display_label(Some("https://mail.google.com/#chat/home"), None, " - Gmail"),
        Some("Google Chat · - Gmail".into())
    );
    assert_eq!(
        display_label(Some("https://mail.google.com/#chat/home"), Some("  \u{2013} Gmail"), ""),
        Some("Google Chat".into())
    );
    assert_eq!(
        display_label(Some("https://mail.google.com/#chat/home"), None, ""),
        Some("Google Chat".into())
    );
    assert_eq!(display_label(Some("https://github.com"), Some("GitHub"), "GitHub"), None);
    assert_eq!(display_label(None, Some("x"), "y"), None);
}
