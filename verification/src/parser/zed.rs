//! Project and file names from Zed window titles of the form `{file} — {project}`.

use vstd::prelude::*;

use crate::text::{
    all_ws, chars_of, is_whitespace, is_ws, lemma_trim_start_skip, substring, trim, trim_range,
    trim_start,
};

verus! {

/// The three separators a Zed title may use: em dash, en dash, hyphen.
pub open spec fn is_dash(c: char) -> bool {
    c == '\u{2014}' || c == '\u{2013}' || c == '-'
}

pub open spec fn no_newline(s: Seq<char>) -> bool {
    forall|k: int| 0 <= k < s.len() ==> #[trigger] s[k] != '\n'
}

/// The end of the run of whitespace in `t` that starts at `a`.
pub open spec fn ws_run_end(t: Seq<char>, a: int) -> int
    decreases t.len() - a,
{
    if 0 <= a < t.len() && is_ws(t[a]) {
        ws_run_end(t, a + 1)
    } else {
        a
    }
}

/// The title pattern `^(.+?)\s*[—–-]\s*(.+)$` matches the text `t` (which ends
/// in a non-whitespace character) with its first group `t[0..a]`: that group has
/// no newline, the whitespace after it is followed by a dash, and what follows the
/// dash, leading whitespace removed, is nonempty and has no newline.
pub open spec fn zed_split_at(t: Seq<char>, a: int) -> bool {
    let b = ws_run_end(t, a);
    &&& 1 <= a <= t.len()
    &&& no_newline(t.subrange(0, a))
    &&& b < t.len()
    &&& is_dash(t[b])
    &&& trim_start(t.subrange(b + 1, t.len() as int)).len() > 0
    &&& no_newline(trim_start(t.subrange(b + 1, t.len() as int)))
}

/// The first end `a >= from` of the first group at which the pattern matches.
pub open spec fn zed_first_split(t: Seq<char>, from: int) -> Option<int>
    decreases t.len() + 1 - from,
{
    if from > t.len() || from < 1 {
        None
    } else if zed_split_at(t, from) {
        Some(from)
    } else {
        zed_first_split(t, from + 1)
    }
}

/// The two groups captured by the title pattern on `t`: the first group is lazy,
/// so the shortest first group that admits a match wins; the whitespace around
/// the dash is taken greedily, so the second group starts at a non-space.
pub open spec fn zed_title_match(t: Seq<char>) -> Option<(Seq<char>, Seq<char>)> {
    match zed_first_split(t, 1) {
        Some(a) => Some(
            (
                t.subrange(0, a),
                trim_start(t.subrange(ws_run_end(t, a) + 1, t.len() as int)),
            ),
        ),
        None => None,
    }
}

/// `(file, project)` read from a Zed window title: the title is trimmed, matched,
/// both groups are trimmed, and an empty group rejects the title.
pub open spec fn zed_title_fields(title: Seq<char>) -> Option<(Seq<char>, Seq<char>)> {
    match zed_title_match(trim(title)) {
        Some((g1, g2)) => {
            let file = trim(g1);
            let project = trim(g2);
            if file.len() == 0 || project.len() == 0 {
                None
            } else {
                Some((file, project))
            }
        },
        None => None,
    }
}

pub struct ZedContext {
    pub file: String,
    pub project: String,
}

pub proof fn lemma_ws_run_end_bounds(t: Seq<char>, a: int)
    requires
        0 <= a <= t.len(),
    ensures
        a <= ws_run_end(t, a) <= t.len(),
        all_ws(t, a, ws_run_end(t, a)),
        ws_run_end(t, a) == t.len() || !is_ws(t[ws_run_end(t, a)]),
    decreases t.len() - a,
{
    if a < t.len() && is_ws(t[a]) {
        lemma_ws_run_end_bounds(t, a + 1);
    }
}

/// Leading whitespace of a suffix ends where the whitespace run ends.
pub proof fn lemma_trim_start_suffix(t: Seq<char>, x: int)
    requires
        0 <= x <= t.len(),
    ensures
        trim_start(t.subrange(x, t.len() as int)) == t.subrange(
            ws_run_end(t, x),
            t.len() as int,
        ),
{
    lemma_ws_run_end_bounds(t, x);
    let s = t.subrange(x, t.len() as int);
    let k = ws_run_end(t, x) - x;
    assert forall|j: int| 0 <= j < k implies is_ws(#[trigger] s[j]) by {
        assert(s[j] == t[x + j]);
    }
    if k < s.len() {
        assert(s[k] == t[x + k]);
    }
    lemma_trim_start_skip(s, k);
    assert(s.subrange(k, s.len() as int) =~= t.subrange(ws_run_end(t, x), t.len() as int));
}

fn ws_run_end_exec(v: &[char], a: usize) -> (r: usize)
    requires
        a <= v@.len(),
    ensures
        r == ws_run_end(v@, a as int),
        a <= r <= v@.len(),
{
    proof {
        lemma_ws_run_end_bounds(v@, a as int);
    }
    let mut b = a;
    while b < v.len() && is_whitespace(v[b])
        invariant
            a <= b <= v@.len(),
            ws_run_end(v@, b as int) == ws_run_end(v@, a as int),
        decreases v.len() - b,
    {
        b = b + 1;
    }
    b
}

/// Whether `v[from..]` has no newline.
fn no_newline_from(v: &[char], from: usize) -> (r: bool)
    requires
        from <= v@.len(),
    ensures
        r == no_newline(v@.subrange(from as int, v@.len() as int)),
{
    let mut k = from;
    while k < v.len()
        invariant
            from <= k <= v@.len(),
            forall|j: int| from <= j < k ==> v@[j] != '\n',
        decreases v.len() - k,
    {
        if v[k] == '\n' {
            assert(v@.subrange(from as int, v@.len() as int)[k - from] == '\n');
            return false;
        }
        k = k + 1;
    }
    assert forall|j: int| 0 <= j < v@.len() - from implies #[trigger] v@.subrange(
        from as int,
        v@.len() as int,
    )[j] != '\n' by {
        assert(v@.subrange(from as int, v@.len() as int)[j] == v@[from + j]);
    }
    true
}

/// Whether the title pattern matches `v` with the first group ending at `a`,
/// given that `v[0..a]` has no newline.
fn zed_split_at_exec(v: &[char], a: usize) -> (r: bool)
    requires
        1 <= a <= v@.len(),
        no_newline(v@.subrange(0, a as int)),
    ensures
        r == zed_split_at(v@, a as int),
{
    let b = ws_run_end_exec(v, a);
    if b >= v.len() || !(v[b] == '\u{2014}' || v[b] == '\u{2013}' || v[b] == '-') {
        return false;
    }
    let c = ws_run_end_exec(v, b + 1);
    proof {
        lemma_trim_start_suffix(v@, b + 1);
    }
    if c >= v.len() {
        return false;
    }
    no_newline_from(v, c)
}

/// The captured groups of the title pattern, as index bounds `(a, c)`: the first
/// group is `t[0..a]` and the second `t[c..]`.
fn zed_title_match_exec(t: &[char]) -> (r: Option<(usize, usize)>)
    ensures
        match zed_title_match(t@) {
            Some((g1, g2)) => r matches Some((a, c)) && a <= c <= t@.len() && g1 == t@.subrange(
                0,
                a as int,
            ) && g2 == t@.subrange(c as int, t@.len() as int),
            None => r is None,
        },
{
    let n = t.len();
    if n == 0 {
        return None;
    }
    let mut a: usize = 1;
    loop
        invariant
            a <= n,
            1 <= a,
            n == t@.len(),
            zed_first_split(t@, 1) == zed_first_split(t@, a as int),
            no_newline(t@.subrange(0, a as int - 1)),
        decreases n + 1 - a,
    {
        if t[a - 1] == '\n' {
            proof {
                lemma_no_split_after_newline(t@, a as int);
            }
            return None;
        }
        assert(no_newline(t@.subrange(0, a as int))) by {
            assert forall|k: int| 0 <= k < a implies #[trigger] t@.subrange(0, a as int)[k]
                != '\n' by {
                if k < a - 1 {
                    assert(t@.subrange(0, a as int)[k] == t@.subrange(0, a as int - 1)[k]);
                }
            }
        }
        if zed_split_at_exec(t, a) {
            let b = ws_run_end_exec(t, a);
            let c = ws_run_end_exec(t, b + 1);
            proof {
                lemma_trim_start_suffix(t@, b + 1);
            }
            return Some((a, c));
        }
        assert(zed_first_split(t@, a as int) == zed_first_split(t@, a + 1));
        if a == n {
            assert(zed_first_split(t@, a + 1) is None);
            return None;
        }
        a = a + 1;
    }
}

/// Once the text before the end of the first group holds a newline, no longer
/// first group can match.
proof fn lemma_no_split_after_newline(t: Seq<char>, a: int)
    requires
        1 <= a <= t.len(),
        t[a - 1] == '\n',
    ensures
        zed_first_split(t, a) is None,
    decreases t.len() + 1 - a,
{
    assert(!no_newline(t.subrange(0, a))) by {
        assert(t.subrange(0, a)[a - 1] == '\n');
    }
    if a < t.len() {
        assert(!no_newline(t.subrange(0, a + 1))) by {
            assert(t.subrange(0, a + 1)[a - 1] == '\n');
        }
        lemma_no_split_after_newline_from(t, a + 1, a - 1);
    }
}

proof fn lemma_no_split_after_newline_from(t: Seq<char>, a: int, k: int)
    requires
        1 <= a,
        0 <= k < a,
        k < t.len(),
        t[k] == '\n',
    ensures
        zed_first_split(t, a) is None,
    decreases t.len() + 1 - a,
{
    if a <= t.len() {
        assert(!no_newline(t.subrange(0, a))) by {
            assert(t.subrange(0, a)[k] == '\n');
        }
        lemma_no_split_after_newline_from(t, a + 1, k);
    }
}

/// Reads `(file, project)` from a Zed window title such as `main.rs — timetrack`.
pub fn parse_zed_title(title: &str) -> (r: Option<ZedContext>)
    ensures
        r is Some <==> zed_title_fields(title@) is Some,
        r matches Some(z) ==> (z.file@, z.project@) == zed_title_fields(title@)->0,
{
    let tv = chars_of(title);
    let (s0, e0) = trim_range(tv.as_slice());
    let trimmed = substring(title, s0, e0);
    let t = chars_of(trimmed.as_str());
    match zed_title_match_exec(t.as_slice()) {
        None => None,
        Some((a, c)) => {
            let g1 = substring(trimmed.as_str(), 0, a);
            let g2 = substring(trimmed.as_str(), c, t.len());
            let g1v = chars_of(g1.as_str());
            let g2v = chars_of(g2.as_str());
            let (f0, f1) = trim_range(g1v.as_slice());
            let (p0, p1) = trim_range(g2v.as_slice());
            if f0 == f1 || p0 == p1 {
                None
            } else {
                Some(ZedContext { file: substring(g1.as_str(), f0, f1), project: substring(g2.as_str(), p0, p1) })
            }
        },
    }
}

} // verus!
