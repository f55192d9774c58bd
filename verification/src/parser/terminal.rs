//! Git branch and working directory guessed from terminal window titles.

use vstd::prelude::*;

use crate::text::{
    contains_exec, contains_seq,
    utf8_len, utf8_len_below, all_ws, chars_of, find_char, find_char_exec, has_prefix, is_whitespace, is_ws, lemma_find_char,
    opt_view, substring, trim, trim_range,
};

verus! {

/// The marker `git:` at index `i`, followed by a non-whitespace character
/// (where the pattern `git:(\S+)` can match).
pub open spec fn git_marker_at(t: Seq<char>, i: int) -> bool {
    &&& 0 <= i
    &&& i + 4 < t.len()
    &&& t[i] == 'g'
    &&& t[i + 1] == 'i'
    &&& t[i + 2] == 't'
    &&& t[i + 3] == ':'
    &&& !is_ws(t[i + 4])
}

/// The leftmost index `i >= from` of a `git:` marker followed by a non-space.
pub open spec fn first_git_marker(t: Seq<char>, from: int) -> Option<int>
    decreases t.len() - from,
{
    if from < 0 || from >= t.len() {
        None
    } else if git_marker_at(t, from) {
        Some(from)
    } else {
        first_git_marker(t, from + 1)
    }
}

/// The end of the run of non-whitespace characters of `t` starting at `a`.
pub open spec fn non_ws_run_end(t: Seq<char>, a: int) -> int
    decreases t.len() - a,
{
    if 0 <= a < t.len() && !is_ws(t[a]) {
        non_ws_run_end(t, a + 1)
    } else {
        a
    }
}

/// The group of the leftmost match of `git:(\S+)`: the longest run of
/// non-whitespace after the first `git:` that is followed by one.
pub open spec fn starship_branch(t: Seq<char>) -> Option<Seq<char>> {
    match first_git_marker(t, 0) {
        Some(i) => Some(t.subrange(i + 4, non_ws_run_end(t, i + 4))),
        None => None,
    }
}

/// Where `\[([^\]]+)\]` matches at `i`: `t[i]` is `[` and the first `]` after it
/// comes after at least one other character. The result is the index of that `]`.
pub open spec fn bracket_close_at(t: Seq<char>, i: int) -> Option<int> {
    if 0 <= i < t.len() && t[i] == '[' {
        match find_char(t, ']', i + 1) {
            Some(k) => if k > i + 1 {
                Some(k)
            } else {
                None
            },
            None => None,
        }
    } else {
        None
    }
}

/// The leftmost match of `\[([^\]]+)\]` at or after `from`, as `(open, close)`.
pub open spec fn first_bracket(t: Seq<char>, from: int) -> Option<(int, int)>
    decreases t.len() - from,
{
    if from < 0 || from >= t.len() {
        None
    } else if bracket_close_at(t, from) is Some {
        Some((from, bracket_close_at(t, from)->0))
    } else {
        first_bracket(t, from + 1)
    }
}

/// The group of the leftmost match of `\[([^\]]+)\]`.
pub open spec fn bracket_branch(t: Seq<char>) -> Option<Seq<char>> {
    match first_bracket(t, 0) {
        Some((i, k)) => Some(t.subrange(i + 1, k)),
        None => None,
    }
}

/// Where `\(([^)]+)\)\s*$` matches at `i`: `t[i]` is `(`, the first `)` after it
/// comes after at least one other character, and only whitespace follows that `)`.
pub open spec fn paren_close_at(t: Seq<char>, i: int) -> Option<int> {
    if 0 <= i < t.len() && t[i] == '(' {
        match find_char(t, ')', i + 1) {
            Some(k) => if k > i + 1 && all_ws(t, k + 1, t.len() as int) {
                Some(k)
            } else {
                None
            },
            None => None,
        }
    } else {
        None
    }
}

/// The leftmost match of `\(([^)]+)\)\s*$` at or after `from`, as `(open, close)`.
pub open spec fn first_paren(t: Seq<char>, from: int) -> Option<(int, int)>
    decreases t.len() - from,
{
    if from < 0 || from >= t.len() {
        None
    } else if paren_close_at(t, from) is Some {
        Some((from, paren_close_at(t, from)->0))
    } else {
        first_paren(t, from + 1)
    }
}

/// The group of the leftmost match of `\(([^)]+)\)\s*$`.
pub open spec fn paren_branch(t: Seq<char>) -> Option<Seq<char>> {
    match first_paren(t, 0) {
        Some((i, k)) => Some(t.subrange(i + 1, k)),
        None => None,
    }
}

/// A plausible branch name: nonempty, no `@`, no `:`, under 120 bytes of UTF-8.
pub open spec fn branch_like(v: Seq<char>) -> bool {
    &&& v.len() > 0
    &&& !v.contains('@')
    &&& !v.contains(':')
    &&& utf8_len(v) < 120
}

/// The branch a terminal title shows: a `git:` marker wins; otherwise the first
/// `[...]` group, if it looks like a branch; otherwise a trailing `(...)` group,
/// if it looks like a branch.
pub open spec fn title_branch(t: Seq<char>) -> Option<Seq<char>> {
    if starship_branch(t) is Some {
        starship_branch(t)
    } else if bracket_branch(t) is Some && branch_like(bracket_branch(t)->0) {
        bracket_branch(t)
    } else if paren_branch(t) is Some && branch_like(paren_branch(t)->0) {
        paren_branch(t)
    } else {
        None
    }
}

/// The index of the first ` `, `(` or `[` in `s` at or after `from`, or `s.len()`.
pub open spec fn path_end(s: Seq<char>, from: int) -> int
    decreases s.len() - from,
{
    if from < 0 || from >= s.len() {
        s.len() as int
    } else if s[from] == ' ' || s[from] == '(' || s[from] == '[' {
        from
    } else {
        path_end(s, from + 1)
    }
}

/// The working directory a terminal title shows: the whole title when it starts
/// with `~/` or `/`; otherwise the text after the first `:` up to the first space
/// or bracket, trimmed, when it starts with `/` or `~`.
pub open spec fn title_cwd(t: Seq<char>) -> Option<Seq<char>> {
    if has_prefix(t, seq!['~', '/']) || has_prefix(t, seq!['/']) {
        Some(t)
    } else {
        match find_char(t, ':', 0) {
            Some(idx) => {
                let tail = t.subrange(idx + 1, t.len() as int);
                let path = trim(tail.subrange(0, path_end(tail, 0)));
                if has_prefix(path, seq!['/']) || has_prefix(path, seq!['~']) {
                    Some(path)
                } else {
                    None
                }
            },
            None => None,
        }
    }
}

pub struct TerminalContext {
    pub cwd: Option<String>,
    pub git_branch: Option<String>,
}

proof fn lemma_non_ws_run_end_bounds(t: Seq<char>, a: int)
    requires
        0 <= a <= t.len(),
    ensures
        a <= non_ws_run_end(t, a) <= t.len(),
    decreases t.len() - a,
{
    if a < t.len() && !is_ws(t[a]) {
        lemma_non_ws_run_end_bounds(t, a + 1);
    }
}

proof fn lemma_path_end_bounds(s: Seq<char>, from: int)
    requires
        0 <= from <= s.len(),
    ensures
        from <= path_end(s, from) <= s.len(),
    decreases s.len() - from,
{
    if from < s.len() && !(s[from] == ' ' || s[from] == '(' || s[from] == '[') {
        lemma_path_end_bounds(s, from + 1);
    }
}

/// Bounds of the `git:(\S+)` group, if the pattern matches.
fn starship_bounds(t: &[char]) -> (r: Option<(usize, usize)>)
    ensures
        match starship_branch(t@) {
            Some(g) => r matches Some((a, b)) && a <= b <= t@.len() && g == t@.subrange(
                a as int,
                b as int,
            ),
            None => r is None,
        },
{
    let n = t.len();
    let mut i: usize = 0;
    while i < n
        invariant
            n == t@.len(),
            first_git_marker(t@, 0) == first_git_marker(t@, i as int),
        decreases n - i,
    {
        if n > 4 && i < n - 4 && t[i] == 'g' && t[i + 1] == 'i' && t[i + 2] == 't' && t[i + 3] == ':'
            && !is_whitespace(t[i + 4]) {
            let mut b = i + 4;
            proof {
                lemma_non_ws_run_end_bounds(t@, i + 4);
            }
            while b < n && !is_whitespace(t[b])
                invariant
                    i + 4 <= b <= n == t@.len(),
                    non_ws_run_end(t@, b as int) == non_ws_run_end(t@, i + 4),
                decreases n - b,
            {
                b = b + 1;
            }
            return Some((i + 4, b));
        }
        i = i + 1;
    }
    None
}

/// The match `(open, close)` of `[...]` at `i`, if any.
fn bracket_close_exec(t: &[char], i: usize) -> (r: Option<usize>)
    requires
        i < t@.len(),
    ensures
        match bracket_close_at(t@, i as int) {
            Some(k) => r == Some(k as usize),
            None => r is None,
        },
{
    if t[i] != '[' {
        return None;
    }
    proof {
        lemma_find_char(t@, ']', i + 1);
    }
    match find_char_exec(t, ']', i + 1) {
        Some(k) => if k > i + 1 {
            Some(k)
        } else {
            None
        },
        None => None,
    }
}

/// Bounds of the `\[([^\]]+)\]` group, if the pattern matches.
fn bracket_bounds(t: &[char]) -> (r: Option<(usize, usize)>)
    ensures
        match bracket_branch(t@) {
            Some(g) => r matches Some((a, b)) && a <= b <= t@.len() && g == t@.subrange(
                a as int,
                b as int,
            ),
            None => r is None,
        },
{
    let n = t.len();
    let mut i: usize = 0;
    while i < n
        invariant
            n == t@.len(),
            first_bracket(t@, 0) == first_bracket(t@, i as int),
        decreases n - i,
    {
        match bracket_close_exec(t, i) {
            Some(k) => {
                proof {
                    lemma_find_char(t@, ']', i + 1);
                }
                return Some((i + 1, k));
            },
            None => {},
        }
        i = i + 1;
    }
    None
}

/// The match of `\(...\)\s*$` at `i`, if any.
fn paren_close_exec(t: &[char], i: usize) -> (r: Option<usize>)
    requires
        i < t@.len(),
    ensures
        match paren_close_at(t@, i as int) {
            Some(k) => r == Some(k as usize),
            None => r is None,
        },
{
    if t[i] != '(' {
        return None;
    }
    proof {
        lemma_find_char(t@, ')', i + 1);
    }
    match find_char_exec(t, ')', i + 1) {
        Some(k) => {
            if k <= i + 1 {
                return None;
            }
            let mut j = k + 1;
            while j < t.len()
                invariant
                    k + 1 <= j <= t@.len(),
                    i < t@.len(),
                    t@[i as int] == '(',
                    k > i + 1,
                    find_char(t@, ')', i + 1) == Some(k as int),
                    all_ws(t@, k + 1, j as int),
                decreases t.len() - j,
            {
                if !is_whitespace(t[j]) {
                    assert(!all_ws(t@, k + 1, t@.len() as int));
                    return None;
                }
                j = j + 1;
            }
            Some(k)
        },
        None => None,
    }
}

/// Bounds of the `\(([^)]+)\)\s*$` group, if the pattern matches.
fn paren_bounds(t: &[char]) -> (r: Option<(usize, usize)>)
    ensures
        match paren_branch(t@) {
            Some(g) => r matches Some((a, b)) && a <= b <= t@.len() && g == t@.subrange(
                a as int,
                b as int,
            ),
            None => r is None,
        },
{
    let n = t.len();
    let mut i: usize = 0;
    while i < n
        invariant
            n == t@.len(),
            first_paren(t@, 0) == first_paren(t@, i as int),
        decreases n - i,
    {
        match paren_close_exec(t, i) {
            Some(k) => {
                proof {
                    lemma_find_char(t@, ')', i + 1);
                }
                return Some((i + 1, k));
            },
            None => {},
        }
        i = i + 1;
    }
    None
}

/// Whether `value` is plausible as a branch name.
fn looks_like_branch(value: &str) -> (r: bool)
    ensures
        r == branch_like(value@),
{
    let v = chars_of(value);
    let no_at = find_char_exec(v.as_slice(), '@', 0).is_none();
    let no_colon = find_char_exec(v.as_slice(), ':', 0).is_none();
    proof {
        lemma_find_char(v@, '@', 0);
        lemma_find_char(v@, ':', 0);
        if v@.contains('@') {
            let j = choose|j: int| 0 <= j < v@.len() && v@[j] == '@';
            assert(!no_at);
        }
        if v@.contains(':') {
            let j = choose|j: int| 0 <= j < v@.len() && v@[j] == ':';
            assert(!no_colon);
        }
        if !no_at {
            let j = find_char(v@, '@', 0)->0;
            assert(v@[j] == '@');
        }
        if !no_colon {
            let j = find_char(v@, ':', 0)->0;
            assert(v@[j] == ':');
        }
    }
    v.len() > 0 && no_at && no_colon && utf8_len_below(v.as_slice(), 120)
}

/// The branch shown in a terminal title, if any.
fn parse_branch_from_title(title: &str) -> (r: Option<String>)
    ensures
        opt_view(r) == title_branch(title@),
{
    let t = chars_of(title);
    match starship_bounds(t.as_slice()) {
        Some((a, b)) => {
            return Some(substring(title, a, b));
        },
        None => {},
    }
    match bracket_bounds(t.as_slice()) {
        Some((a, b)) => {
            let branch = substring(title, a, b);
            if looks_like_branch(branch.as_str()) {
                return Some(branch);
            }
        },
        None => {},
    }
    match paren_bounds(t.as_slice()) {
        Some((a, b)) => {
            let branch = substring(title, a, b);
            if looks_like_branch(branch.as_str()) {
                return Some(branch);
            }
        },
        None => {},
    }
    None
}

/// The working directory shown in a terminal title, if any.
fn parse_cwd_from_title(title: &str) -> (r: Option<String>)
    ensures
        opt_view(r) == title_cwd(title@),
{
    let t = chars_of(title);
    let n = t.len();
    if (n >= 2 && t[0] == '~' && t[1] == '/') || (n >= 1 && t[0] == '/') {
        proof {
            if n >= 2 && t@[0] == '~' && t@[1] == '/' {
                assert(t@.subrange(0, 2) =~= seq!['~', '/']);
            } else {
                assert(t@.subrange(0, 1) =~= seq!['/']);
            }
        }
        return Some(String::from_str(title));
    }
    proof {
        if has_prefix(t@, seq!['~', '/']) {
            assert(t@.subrange(0, 2)[0] == '~');
            assert(t@.subrange(0, 2)[1] == '/');
        }
        if has_prefix(t@, seq!['/']) {
            assert(t@.subrange(0, 1)[0] == '/');
        }
    }
    proof {
        lemma_find_char(t@, ':', 0);
    }
    match find_char_exec(t.as_slice(), ':', 0) {
        Some(idx) => {
            let tail = substring(title, idx + 1, n);
            assert(tail@ == t@.subrange(idx + 1, t@.len() as int));
            let tv = chars_of(tail.as_str());
            let mut e: usize = 0;
            proof {
                lemma_path_end_bounds(tv@, 0);
            }
            while e < tv.len() && !(tv[e] == ' ' || tv[e] == '(' || tv[e] == '[')
                invariant
                    e <= tv@.len(),
                    path_end(tv@, e as int) == path_end(tv@, 0),
                decreases tv.len() - e,
            {
                e = e + 1;
            }
            let head = substring(tail.as_str(), 0, e);
            assert(head@ == tail@.subrange(0, path_end(tail@, 0)));
            let hv = chars_of(head.as_str());
            let (p0, p1) = trim_range(hv.as_slice());
            let path = substring(head.as_str(), p0, p1);
            assert(path@ == trim(head@));
            let pv = chars_of(path.as_str());
            if pv.len() >= 1 && (pv[0] == '/' || pv[0] == '~') {
                proof {
                    if pv@[0] == '/' {
                        assert(pv@.subrange(0, 1) =~= seq!['/']);
                    } else {
                        assert(pv@.subrange(0, 1) =~= seq!['~']);
                    }
                }
                Some(path)
            } else {
                proof {
                    if has_prefix(pv@, seq!['/']) {
                        assert(pv@.subrange(0, 1)[0] == '/');
                    }
                    if has_prefix(pv@, seq!['~']) {
                        assert(pv@.subrange(0, 1)[0] == '~');
                    }
                }
                None
            }
        },
        None => None,
    }
}

/// Reads the git branch (and, where shown, the working directory) from a
/// terminal window title; a title without a recognizable branch gives `None`.
pub fn parse_terminal_title(title: &str) -> (r: Option<TerminalContext>)
    ensures
        r is Some <==> title_branch(title@) is Some,
        r matches Some(ctx) ==> opt_view(ctx.git_branch) == title_branch(title@) && opt_view(
            ctx.cwd,
        ) == title_cwd(title@),
{
    let git_branch = parse_branch_from_title(title);
    if git_branch.is_none() {
        return None;
    }
    Some(TerminalContext { cwd: parse_cwd_from_title(title), git_branch })
}

/// A line without the `\r` of a `\r\n` ending.
pub open spec fn strip_cr(l: Seq<char>) -> Seq<char> {
    if l.len() > 0 && l.last() == '\r' {
        l.drop_last()
    } else {
        l
    }
}

/// The lines of a text as `str::lines` yields them: split at `\n`, each
/// terminated line without a trailing `\r`, and no empty line after a final `\n`.
pub open spec fn text_lines(c: Seq<char>) -> Seq<Seq<char>>
    decreases c.len(),
{
    match find_char(c, '\n', 0) {
        None => if c.len() == 0 {
            Seq::empty()
        } else {
            seq![c]
        },
        Some(k) => if 0 <= k < c.len() {
            seq![strip_cr(c.subrange(0, k))] + text_lines(c.subrange(k + 1, c.len() as int))
        } else {
            Seq::empty()
        },
    }
}

/// The last line that is not blank.
pub open spec fn last_nonblank(lines: Seq<Seq<char>>) -> Option<Seq<char>>
    decreases lines.len(),
{
    if lines.len() == 0 {
        None
    } else if trim(lines.last()).len() > 0 {
        Some(lines.last())
    } else {
        last_nonblank(lines.drop_last())
    }
}

/// The lines of `content[from..]`, as strings.
fn lines_from(content: &str, v: &[char], from: usize) -> (r: Vec<String>)
    requires
        v@ == content@,
        from <= v@.len(),
    ensures
        r@.len() == text_lines(v@.subrange(from as int, v@.len() as int)).len(),
        forall|i: int| 0 <= i < r@.len() ==> #[trigger] r@[i]@ == text_lines(
            v@.subrange(from as int, v@.len() as int),
        )[i],
    decreases v@.len() - from,
{
    let ghost rest = v@.subrange(from as int, v@.len() as int);
    proof {
        lemma_find_char(v@, '\n', from as int);
        lemma_find_char(rest, '\n', 0);
    }
    match find_char_exec(v, '\n', from) {
        None => {
            assert forall|j: int| 0 <= j < rest.len() implies rest[j] != '\n' by {
                assert(rest[j] == v@[from + j]);
            }
            if from == v.len() {
                Vec::new()
            } else {
                let mut out = Vec::new();
                out.push(substring(content, from, v.len()));
                out
            }
        },
        Some(k) => {
            assert(find_char(v@, '\n', from as int) == Some(k as int));
            assert(k < v.len());
            assert(rest[k - from] == v@[k as int]);
            assert(rest[k - from] == '\n');
            assert forall|j: int| 0 <= j < k - from implies rest[j] != '\n' by {
                assert(rest[j] == v@[from + j]);
            }
            assert(find_char(rest, '\n', 0) == Some(k - from)) by {
                match find_char(rest, '\n', 0) {
                    Some(k2) => {
                        assert(k2 == k - from);
                    },
                    None => {
                        assert(rest[k - from] != '\n');
                    },
                }
            }
            let end = if k > from && v[k - 1] == '\r' {
                k - 1
            } else {
                k
            };
            let line = substring(content, from, end);
            assert(line@ == strip_cr(rest.subrange(0, k - from)));
            let tail = lines_from(content, v, k + 1);
            assert(rest.subrange(k - from + 1, rest.len() as int) =~= v@.subrange(
                k + 1,
                v@.len() as int,
            ));
            let mut out = Vec::new();
            out.push(line);
            let mut i: usize = 0;
            while i < tail.len()
                invariant
                    i <= tail@.len(),
                    out@.len() == i + 1,
                    out@[0]@ == strip_cr(rest.subrange(0, k - from)),
                    forall|j: int| 1 <= j <= i ==> #[trigger] out@[j]@ == tail@[j - 1]@,
                decreases tail.len() - i,
            {
                out.push(tail[i].clone());
                i = i + 1;
            }
            out
        },
    }
}

/// The latest non-blank line of the terminal hook's state file: the line the
/// hook wrote last.
pub fn latest_hook_line(content: &str) -> (r: Option<String>)
    ensures
        opt_view(r) == last_nonblank(text_lines(content@)),
{
    let v = chars_of(content);
    let lines = lines_from(content, v.as_slice(), 0);
    assert(v@.subrange(0, v@.len() as int) =~= content@);
    let ghost ls = text_lines(content@);
    let mut n = lines.len();
    assert(ls.subrange(0, n as int) =~= ls);
    while n > 0
        invariant
            ls == text_lines(content@),
            n <= lines@.len() == ls.len(),
            forall|i: int| 0 <= i < lines@.len() ==> #[trigger] lines@[i]@ == ls[i],
            last_nonblank(ls) == last_nonblank(ls.subrange(0, n as int)),
        decreases n,
    {
        let lv = chars_of(lines[n - 1].as_str());
        let (a, b) = trim_range(lv.as_slice());
        assert(ls.subrange(0, n as int).last() == ls[n - 1]);
        assert(ls.subrange(0, n as int).drop_last() =~= ls.subrange(0, n - 1));
        if a < b {
            assert(lv@ == ls[n - 1]);
            assert(trim(ls[n - 1]).len() > 0);
            assert(last_nonblank(ls.subrange(0, n as int)) == Some(ls[n - 1]));
            let found = lines[n - 1].clone();
            assert(found@ == ls[n - 1]);
            assert(last_nonblank(ls) == Some(ls[n - 1]));
            return Some(found);
        }
        n = n - 1;
    }
    None
}

/// The script that, sourced from a shell profile, appends the working directory
/// and branch to the hook state file at every prompt.
pub open spec fn hook_script_text() -> Seq<char> {
    "# TimeTrack terminal hook \u{2014} add to ~/.zshrc or ~/.bashrc\n_timetrack_hook() {\n  local cwd branch\n  cwd=$(pwd)\n  branch=$(git branch --show-current 2>/dev/null)\n  mkdir -p \"$HOME/.timetrack\"\n  printf '{\"cwd\":\"%s\",\"branch\":\"%s\",\"ts\":%s}\\n' \\\n    \"$cwd\" \"${branch:-}\" \"$(date +%s)\" >> \"$HOME/.timetrack/terminal-state.jsonl\"\n}\n# zsh\nprecmd_functions+=(_timetrack_hook)\n# bash: PROMPT_COMMAND=\"_timetrack_hook; $PROMPT_COMMAND\"\n"@
}

pub fn hook_install_script() -> (r: String)
    ensures
        r@ == hook_script_text(),
{
    String::from_str(
        "# TimeTrack terminal hook \u{2014} add to ~/.zshrc or ~/.bashrc\n_timetrack_hook() {\n  local cwd branch\n  cwd=$(pwd)\n  branch=$(git branch --show-current 2>/dev/null)\n  mkdir -p \"$HOME/.timetrack\"\n  printf '{\"cwd\":\"%s\",\"branch\":\"%s\",\"ts\":%s}\\n' \\\n    \"$cwd\" \"${branch:-}\" \"$(date +%s)\" >> \"$HOME/.timetrack/terminal-state.jsonl\"\n}\n# zsh\nprecmd_functions+=(_timetrack_hook)\n# bash: PROMPT_COMMAND=\"_timetrack_hook; $PROMPT_COMMAND\"\n",
    )
}

/// Whether a shell profile's text sources the terminal hook.
pub fn references_hook(profile: &str) -> (r: bool)
    ensures
        r == (contains_seq(profile@, "_timetrack_hook"@) || contains_seq(
            profile@,
            ".timetrack/hook.sh"@,
        )),
{
    let v = chars_of(profile);
    contains_exec(v.as_slice(), chars_of("_timetrack_hook").as_slice()) || contains_exec(
        v.as_slice(),
        chars_of(".timetrack/hook.sh").as_slice(),
    )
}

/// The terminal context a hook line gives: the working directory as written,
/// and the branch, where an empty branch (a directory outside any git
/// repository, for which the hook writes `""`) means no branch.
pub fn hook_context(cwd: Option<String>, branch: Option<String>) -> (r: TerminalContext)
    ensures
        r.cwd == cwd,
        r.git_branch == (if branch matches Some(b) && b@.len() > 0 {
            branch
        } else {
            None
        }),
{
    let git_branch = match branch {
        Some(b) => if b.as_str().is_empty() {
            None
        } else {
            Some(b)
        },
        None => None,
    };
    TerminalContext { cwd, git_branch }
}

} // verus!
