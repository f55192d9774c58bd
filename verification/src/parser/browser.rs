//! Browser URL normalization and display helpers.

use vstd::prelude::*;

use crate::text::{
    chars_eq,
    chars_of, contains_exec, contains_seq, ends_with_exec, find_char, find_char_exec, has_prefix,
    has_suffix, lemma_find_char, opt_view, occurs_at, occurs_at_exec, starts_with_exec, substring, trim, trim_range,
};

verus! {

/// The URL to store for what a browser reports: the trimmed text when it has an
/// `http://` or `https://` scheme; `https://` put before it when it has a dot and
/// no space; nothing when it is blank or neither.
pub open spec fn normalized_url(url: Seq<char>) -> Option<Seq<char>> {
    let t = trim(url);
    if t.len() == 0 {
        None
    } else if has_prefix(t, "http://"@) || has_prefix(t, "https://"@) {
        Some(t)
    } else if t.contains('.') && !t.contains(' ') {
        Some("https://"@ + t)
    } else {
        None
    }
}

/// `s` with every leading repetition of the nonempty `p` removed
/// (as `str::trim_start_matches` with a string pattern).
pub open spec fn strip_all_prefix(s: Seq<char>, p: Seq<char>) -> Seq<char>
    decreases s.len(),
{
    if p.len() > 0 && has_prefix(s, p) {
        strip_all_prefix(s.subrange(p.len() as int, s.len() as int), p)
    } else {
        s
    }
}

/// The text of `s` before its first `/` (all of `s` when it has none).
pub open spec fn before_slash(s: Seq<char>) -> Seq<char> {
    match find_char(s, '/', 0) {
        Some(k) => s.subrange(0, k),
        None => s,
    }
}

/// The host part shown for a URL: leading `https://` and then `http://`
/// prefixes removed, cut at the first `/`.
pub open spec fn url_host(url: Seq<char>) -> Seq<char> {
    before_slash(strip_all_prefix(strip_all_prefix(url, "https://"@), "http://"@))
}

pub open spec fn gmail_chat_url(url: Seq<char>) -> bool {
    contains_seq(url, "mail.google.com"@) && contains_seq(url, "#chat/"@)
}

/// A title worth showing: nonblank, not the URL itself, not starting with `http`.
pub open spec fn useful_title(title: Seq<char>, url: Seq<char>) -> bool {
    let t = trim(title);
    t.len() > 0 && t != url && !has_prefix(t, "http"@)
}

/// The name part of a Gmail title: the trimmed title without ` - Gmail`; else the
/// untrimmed title without ` – Gmail` or ` - Google Mail`; else the title.
pub open spec fn gmail_name(title: Seq<char>) -> Seq<char> {
    let tt = trim(title);
    let raw = if has_suffix(tt, " - Gmail"@) {
        tt.subrange(0, tt.len() - 8)
    } else if has_suffix(title, " \u{2013} Gmail"@) {
        title.subrange(0, title.len() - 8)
    } else if has_suffix(title, " - Google Mail"@) {
        title.subrange(0, title.len() - 14)
    } else {
        title
    };
    trim(raw)
}

pub open spec fn gmail_chat_label(title: Seq<char>) -> Seq<char> {
    let name = gmail_name(title);
    if name.len() == 0 {
        "Google Chat"@
    } else {
        "Google Chat \u{b7} "@ + name
    }
}

pub open spec fn gmail_chat_kind(url: Seq<char>) -> Seq<char> {
    if contains_seq(url, "#chat/dm/"@) {
        "Google Chat \u{b7} Direktnachricht"@
    } else if contains_seq(url, "#chat/space/"@) {
        "Google Chat \u{b7} Gruppe"@
    } else {
        "Google Chat"@
    }
}

/// The label shown for a browser tab: only Google Chat tabs get one, named after
/// the page title, else the window title, else the kind of chat in the URL.
pub open spec fn tab_label(url: Option<Seq<char>>, page_title: Option<Seq<char>>, window_title: Seq<char>) -> Option<Seq<char>> {
    match url {
        None => None,
        Some(u) => if !gmail_chat_url(u) {
            None
        } else if page_title is Some && useful_title(page_title->0, u) {
            Some(gmail_chat_label(page_title->0))
        } else if useful_title(window_title, u) {
            Some(gmail_chat_label(window_title))
        } else {
            Some(gmail_chat_kind(u))
        },
    }
}

/// Normalizes a URL reported by a browser (see [`normalized_url`]).
pub fn normalize_url(url: &str) -> (r: Option<String>)
    ensures
        opt_view(r) == normalized_url(url@),
{
    let v = chars_of(url);
    let (a, b) = trim_range(v.as_slice());
    if a == b {
        return None;
    }
    let trimmed = substring(url, a, b);
    let t = chars_of(trimmed.as_str());
    let http = chars_of("http://");
    let https = chars_of("https://");
    if starts_with_exec(t.as_slice(), http.as_slice()) || starts_with_exec(t.as_slice(), https.as_slice()) {
        return Some(trimmed);
    }
    let dot = find_char_exec(t.as_slice(), '.', 0);
    let space = find_char_exec(t.as_slice(), ' ', 0);
    proof {
        lemma_find_char(t@, '.', 0);
        lemma_find_char(t@, ' ', 0);
        if t@.contains('.') {
            let j = choose|j: int| 0 <= j < t@.len() && t@[j] == '.';
        }
        if t@.contains(' ') {
            let j = choose|j: int| 0 <= j < t@.len() && t@[j] == ' ';
        }
        if dot is Some {
            assert(t@[find_char(t@, '.', 0)->0] == '.');
        }
        if space is Some {
            assert(t@[find_char(t@, ' ', 0)->0] == ' ');
        }
    }
    if dot.is_some() && space.is_none() {
        let mut out = String::from_str("https://");
        out.append(trimmed.as_str());
        Some(out)
    } else {
        None
    }
}

/// The index in `v` where `strip_all_prefix(v[from..], p)` starts.
fn strip_all_prefix_from(v: &[char], p: &[char], from: usize) -> (r: usize)
    requires
        from <= v@.len(),
        p@.len() > 0,
    ensures
        from <= r <= v@.len(),
        v@.subrange(r as int, v@.len() as int) == strip_all_prefix(
            v@.subrange(from as int, v@.len() as int),
            p@,
        ),
{
    let mut pos = from;
    let n = v.len();
    let pl = p.len();
    while occurs_at_exec(v, p, pos)
        invariant
            from <= pos <= v@.len(),
            n == v@.len(),
            pl == p@.len(),
            p@.len() > 0,
            strip_all_prefix(v@.subrange(pos as int, v@.len() as int), p@) == strip_all_prefix(
                v@.subrange(from as int, v@.len() as int),
                p@,
            ),
        decreases v@.len() - pos,
    {
        let ghost rest = v@.subrange(pos as int, v@.len() as int);
        assert(rest.subrange(0, p@.len() as int) =~= v@.subrange(pos as int, pos + p@.len()));
        assert(rest.subrange(p@.len() as int, rest.len() as int) =~= v@.subrange(
            pos + p@.len(),
            v@.len() as int,
        ));
        assert(pos + pl <= n);
        pos = pos + pl;
    }
    proof {
        let rest = v@.subrange(pos as int, v@.len() as int);
        if has_prefix(rest, p@) {
            assert(rest.subrange(0, p@.len() as int) =~= v@.subrange(pos as int, pos + p@.len()));
        }
    }
    pos
}

/// The host shown for a URL, e.g. `github.com` for `https://github.com/user/repo`.
pub fn display_host(url: &str) -> (r: String)
    ensures
        r@ == url_host(url@),
{
    let v = chars_of(url);
    let https = chars_of("https://");
    let http = chars_of("http://");
    proof {
        reveal_strlit("https://");
        reveal_strlit("http://");
        assert(v@.subrange(0, v@.len() as int) =~= v@);
    }
    let a = strip_all_prefix_from(v.as_slice(), https.as_slice(), 0);
    let b = strip_all_prefix_from(v.as_slice(), http.as_slice(), a);
    let rest = substring(url, b, v.len());
    let rv = chars_of(rest.as_str());
    proof {
        lemma_find_char(rv@, '/', 0);
    }
    match find_char_exec(rv.as_slice(), '/', 0) {
        Some(k) => substring(rest.as_str(), 0, k),
        None => rest,
    }
}

fn is_gmail_chat_url(url: &str) -> (r: bool)
    ensures
        r == gmail_chat_url(url@),
{
    let v = chars_of(url);
    contains_exec(v.as_slice(), chars_of("mail.google.com").as_slice()) && contains_exec(
        v.as_slice(),
        chars_of("#chat/").as_slice(),
    )
}

fn is_useful_title(title: &str, url: &str) -> (r: bool)
    ensures
        r == useful_title(title@, url@),
{
    let v = chars_of(title);
    let (a, b) = trim_range(v.as_slice());
    let t = substring(title, a, b);
    let tv = chars_of(t.as_str());
    let uv = chars_of(url);
    a < b && !chars_eq(tv.as_slice(), uv.as_slice()) && !starts_with_exec(tv.as_slice(), chars_of("http").as_slice())
}

fn format_gmail_chat_label(title: &str) -> (r: String)
    ensures
        r@ == gmail_chat_label(title@),
{
    let v = chars_of(title);
    let (a, b) = trim_range(v.as_slice());
    let tt = substring(title, a, b);
    let ttv = chars_of(tt.as_str());
    let gmail = chars_of(" - Gmail");
    let gmail_en = chars_of(" \u{2013} Gmail");
    let google_mail = chars_of(" - Google Mail");
    proof {
        reveal_strlit(" - Gmail");
        reveal_strlit(" \u{2013} Gmail");
        reveal_strlit(" - Google Mail");
    }
    let raw = if ends_with_exec(ttv.as_slice(), gmail.as_slice()) {
        substring(tt.as_str(), 0, ttv.len() - 8)
    } else if ends_with_exec(v.as_slice(), gmail_en.as_slice()) {
        substring(title, 0, v.len() - 8)
    } else if ends_with_exec(v.as_slice(), google_mail.as_slice()) {
        substring(title, 0, v.len() - 14)
    } else {
        String::from_str(title)
    };
    let rv = chars_of(raw.as_str());
    let (c, d) = trim_range(rv.as_slice());
    if c == d {
        String::from_str("Google Chat")
    } else {
        let mut out = String::from_str("Google Chat \u{b7} ");
        out.append(substring(raw.as_str(), c, d).as_str());
        out
    }
}

fn classify_gmail_chat_url(url: &str) -> (r: String)
    ensures
        r@ == gmail_chat_kind(url@),
{
    let v = chars_of(url);
    if contains_exec(v.as_slice(), chars_of("#chat/dm/").as_slice()) {
        String::from_str("Google Chat \u{b7} Direktnachricht")
    } else if contains_exec(v.as_slice(), chars_of("#chat/space/").as_slice()) {
        String::from_str("Google Chat \u{b7} Gruppe")
    } else {
        String::from_str("Google Chat")
    }
}

pub open spec fn opt_str_view(o: Option<&str>) -> Option<Seq<char>> {
    match o {
        Some(s) => Some(s@),
        None => None,
    }
}

/// Human-readable label for browser tabs (e.g. the Google Chat contact name);
/// `None` for every tab that is not a Google Chat tab.
pub fn display_label(url: Option<&str>, page_title: Option<&str>, window_title: &str) -> (r: Option<String>)
    ensures
        opt_view(r) == tab_label(opt_str_view(url), opt_str_view(page_title), window_title@),
{
    let url = match url {
        Some(u) => u,
        None => return None,
    };
    if !is_gmail_chat_url(url) {
        return None;
    }
    match page_title {
        Some(title) => {
            if is_useful_title(title, url) {
                return Some(format_gmail_chat_label(title));
            }
        },
        None => {},
    }
    if is_useful_title(window_title, url) {
        return Some(format_gmail_chat_label(window_title));
    }
    Some(classify_gmail_chat_url(url))
}

} // verus!
