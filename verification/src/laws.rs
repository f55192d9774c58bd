//! Properties that hold across the library's functions, proved over the spec
//! functions that their contracts use.

use vstd::prelude::*;

use crate::commands::{duration_label, durations_sum, subtitle_of};
use crate::export::{
    csv_field, csv_header, csv_line, csv_lines, double_quotes, needs_quoting, ExportRow,
};
use crate::models::{
    bool_text, elapsed_whole_secs, hh_mm_value, minutes_label, or_empty, timestamp_in_range,
    Activity, ActivitySnapshot, Timestamp,
};
use crate::models::WorkHoursSettings;
use crate::parser::browser::{before_slash, normalized_url, url_host};
use crate::parser::terminal::{path_end, title_cwd, TerminalContext};
use crate::parser::{enriched_as, is_terminal_bundle, is_zed_bundle};
use crate::parser::zed::{
    is_dash, lemma_ws_run_end_bounds, no_newline, ws_run_end, zed_first_split, zed_split_at,
    zed_title_fields, zed_title_match,
};
use crate::segment::SegmentTracker;
use crate::text::{
    all_digits, all_ws, decimal, int_text, digit_char, digits_value, find_char, has_prefix, is_digit, is_ws, pad2,
    lemma_find_char, parse_u16_spec, trim, trim_end, trim_start, unsigned_digits,
};

verus! {

/// Equal texts with equal endings have equal beginnings.
pub proof fn lemma_cancel_right(a: Seq<char>, b: Seq<char>, p: Seq<char>)
    requires
        a + p == b + p,
    ensures
        a == b,
{
    assert((a + p).len() == a.len() + p.len());
    assert((b + p).len() == b.len() + p.len());
    assert(a.len() == b.len());
    assert forall|i: int| 0 <= i < a.len() implies a[i] == b[i] by {
        assert((a + p)[i] == a[i]);
        assert((b + p)[i] == b[i]);
    }
    assert(a =~= b);
}

/// Equal texts with equal beginnings have equal endings.
pub proof fn lemma_cancel_left(x: Seq<char>, a: Seq<char>, b: Seq<char>)
    requires
        x + a == x + b,
    ensures
        a == b,
{
    assert((x + a).len() == x.len() + a.len());
    assert((x + b).len() == x.len() + b.len());
    assert(a.len() == b.len());
    assert forall|i: int| 0 <= i < a.len() implies a[i] == b[i] by {
        assert((x + a)[x.len() + i] == a[i]);
        assert((x + b)[x.len() + i] == b[i]);
    }
    assert(a =~= b);
}

/// Signatures that are equal agree in each of their fields once the fields
/// before it agree: here, in the URL and in the project.
pub proof fn lemma_signature_fields(
    a: ActivitySnapshot,
    b: ActivitySnapshot,
)
    requires
        a.spec_signature() == b.spec_signature(),
        a.app_name == b.app_name,
        a.app_bundle_id == b.app_bundle_id,
        a.window_title == b.window_title,
        a.context.page_title == b.context.page_title,
        a.context.file == b.context.file,
        a.context.git_branch == b.context.git_branch,
        a.is_idle == b.is_idle,
    ensures
        or_empty(a.context.url) == or_empty(b.context.url) ==> or_empty(a.context.project)
            == or_empty(b.context.project),
        or_empty(a.context.project) == or_empty(b.context.project) ==> or_empty(a.context.url)
            == or_empty(b.context.url),
{
    let bar = "|"@;
    let x = a.app_name@ + bar + a.app_bundle_id@ + bar + a.window_title@ + bar;
    let ua = or_empty(a.context.url);
    let ub = or_empty(b.context.url);
    let pt = or_empty(a.context.page_title);
    let pa = or_empty(a.context.project);
    let pb = or_empty(b.context.project);
    let f = or_empty(a.context.file);
    let g = or_empty(a.context.git_branch);
    let t = bool_text(a.is_idle);
    // peel the pieces after the project
    lemma_cancel_right(
        x + ua + bar + pt + bar + pa + bar + f + bar + g + bar,
        x + ub + bar + pt + bar + pb + bar + f + bar + g + bar,
        t,
    );
    lemma_cancel_right(x + ua + bar + pt + bar + pa + bar + f + bar + g, x + ub + bar + pt + bar + pb + bar + f + bar + g, bar);
    lemma_cancel_right(x + ua + bar + pt + bar + pa + bar + f + bar, x + ub + bar + pt + bar + pb + bar + f + bar, g);
    lemma_cancel_right(x + ua + bar + pt + bar + pa + bar + f, x + ub + bar + pt + bar + pb + bar + f, bar);
    lemma_cancel_right(x + ua + bar + pt + bar + pa + bar, x + ub + bar + pt + bar + pb + bar, f);
    lemma_cancel_right(x + ua + bar + pt + bar + pa, x + ub + bar + pt + bar + pb, bar);
    if ua == ub {
        lemma_cancel_left(x + ua + bar + pt + bar, pa, pb);
    }
    if pa == pb {
        lemma_cancel_right(x + ua + bar + pt + bar, x + ub + bar + pt + bar, pa);
        lemma_cancel_right(x + ua + bar + pt, x + ub + bar + pt, bar);
        lemma_cancel_right(x + ua + bar, x + ub + bar, pt);
        lemma_cancel_right(x + ua, x + ub, bar);
        lemma_cancel_left(x, ua, ub);
    }
}

/// The working directory never changes a snapshot's signature: snapshots that
/// differ only there belong to the same segment.
pub proof fn law_signature_ignores_cwd(a: ActivitySnapshot, b: ActivitySnapshot)
    requires
        a.app_name == b.app_name,
        a.app_bundle_id == b.app_bundle_id,
        a.window_title == b.window_title,
        a.context.url == b.context.url,
        a.context.page_title == b.context.page_title,
        a.context.project == b.context.project,
        a.context.file == b.context.file,
        a.context.git_branch == b.context.git_branch,
        a.is_idle == b.is_idle,
    ensures
        a.spec_signature() == b.spec_signature(),
{
}

/// An idle snapshot never has the signature of an active one.
pub proof fn law_idle_differs_from_active(a: ActivitySnapshot, b: ActivitySnapshot)
    requires
        a.is_idle,
        !b.is_idle,
    ensures
        a.spec_signature() != b.spec_signature(),
{
    reveal_strlit("true");
    reveal_strlit("false");
    let sa = a.spec_signature();
    let sb = b.spec_signature();
    assert(sa[sa.len() - 2] == 'u');
    assert(sb[sb.len() - 2] == 's');
}

/// Changing the URL (as text, an absent URL counting as empty) changes the
/// signature, so a new tab address starts a new segment.
pub proof fn law_signature_changes_with_url(a: ActivitySnapshot, b: ActivitySnapshot)
    requires
        a.app_name == b.app_name,
        a.app_bundle_id == b.app_bundle_id,
        a.window_title == b.window_title,
        a.context.page_title == b.context.page_title,
        a.context.project == b.context.project,
        a.context.file == b.context.file,
        a.context.git_branch == b.context.git_branch,
        a.is_idle == b.is_idle,
        or_empty(a.context.url) != or_empty(b.context.url),
    ensures
        a.spec_signature() != b.spec_signature(),
{
    if a.spec_signature() == b.spec_signature() {
        lemma_signature_fields(a, b);
    }
}

/// Changing the project changes the signature, so switching Zed projects starts
/// a new segment.
pub proof fn law_signature_changes_with_project(a: ActivitySnapshot, b: ActivitySnapshot)
    requires
        a.app_name == b.app_name,
        a.app_bundle_id == b.app_bundle_id,
        a.window_title == b.window_title,
        a.context.url == b.context.url,
        a.context.page_title == b.context.page_title,
        a.context.file == b.context.file,
        a.context.git_branch == b.context.git_branch,
        a.is_idle == b.is_idle,
        or_empty(a.context.project) != or_empty(b.context.project),
    ensures
        a.spec_signature() != b.spec_signature(),
{
    if a.spec_signature() == b.spec_signature() {
        lemma_signature_fields(a, b);
    }
}

/// The fields a signature is made of: app name, bundle id, window title,
/// URL, page title, project, file and branch (absent ones empty), and the idle
/// flag as `true` or `false`.
pub open spec fn key_fields(s: ActivitySnapshot) -> Seq<Seq<char>> {
    seq![s.app_name@, s.app_bundle_id@, s.window_title@, or_empty(s.context.url), or_empty(s.context.page_title), or_empty(s.context.project), or_empty(s.context.file), or_empty(s.context.git_branch), bool_text(s.is_idle)] 
}

/// Texts joined by `|`.
pub open spec fn bar_join(fields: Seq<Seq<char>>) -> Seq<char>
    decreases fields.len(),
{
    if fields.len() == 0 {
        Seq::empty()
    } else if fields.len() == 1 {
        fields[0]
    } else {
        fields[0] + "|"@ + bar_join(fields.drop_first())
    }
}

/// The join from field `k` on is field `k`, a bar, and the join of the rest.
pub proof fn lemma_bar_join_step(fields: Seq<Seq<char>>, k: int)
    requires
        0 <= k < fields.len() - 1,
    ensures
        bar_join(fields.skip(k)) == fields[k] + "|"@ + bar_join(fields.skip(k + 1)),
{
    assert(fields.skip(k).drop_first() =~= fields.skip(k + 1));
}

/// Moving a bar and a field from the end of a prefix to the front of the rest.
pub proof fn lemma_bar_regroup(p: Seq<char>, x: Seq<char>, r: Seq<char>)
    ensures
        p + "|"@ + x + "|"@ + r == p + "|"@ + (x + "|"@ + r),
{
    assert(p + "|"@ + x + "|"@ + r =~= p + "|"@ + (x + "|"@ + r));
}

/// A snapshot's signature is its key fields joined by `|`.
#[verifier::rlimit(50)]
pub proof fn lemma_signature_is_bar_join(s: ActivitySnapshot)
    ensures
        s.spec_signature() == bar_join(key_fields(s)),
{
    let f = key_fields(s);
    assert(f.skip(8) =~= seq![f[8]]);
    assert(bar_join(f.skip(8)) == f[8]);
    lemma_bar_regroup(f[0] + "|"@ + f[1] + "|"@ + f[2] + "|"@ + f[3] + "|"@ + f[4] + "|"@ + f[5] + "|"@ + f[6], f[7], bar_join(f.skip(8)));
    lemma_bar_join_step(f, 7);
    lemma_bar_regroup(f[0] + "|"@ + f[1] + "|"@ + f[2] + "|"@ + f[3] + "|"@ + f[4] + "|"@ + f[5], f[6], bar_join(f.skip(7)));
    lemma_bar_join_step(f, 6);
    lemma_bar_regroup(f[0] + "|"@ + f[1] + "|"@ + f[2] + "|"@ + f[3] + "|"@ + f[4], f[5], bar_join(f.skip(6)));
    lemma_bar_join_step(f, 5);
    lemma_bar_regroup(f[0] + "|"@ + f[1] + "|"@ + f[2] + "|"@ + f[3], f[4], bar_join(f.skip(5)));
    lemma_bar_join_step(f, 4);
    lemma_bar_regroup(f[0] + "|"@ + f[1] + "|"@ + f[2], f[3], bar_join(f.skip(4)));
    lemma_bar_join_step(f, 3);
    lemma_bar_regroup(f[0] + "|"@ + f[1], f[2], bar_join(f.skip(3)));
    lemma_bar_join_step(f, 2);
    lemma_bar_regroup(f[0], f[1], bar_join(f.skip(2)));
    lemma_bar_join_step(f, 1);
    lemma_bar_join_step(f, 0);
    assert(f.skip(0) =~= f);
}

/// Two texts without a bar, each followed by a bar, split equal texts at the
/// same place.
pub proof fn lemma_split_at_bar(x: Seq<char>, r1: Seq<char>, y: Seq<char>, r2: Seq<char>)
    requires
        !x.contains('|'),
        !y.contains('|'),
        x + "|"@ + r1 == y + "|"@ + r2,
    ensures
        x == y,
        r1 == r2,
{
    reveal_strlit("|");
    let l = x + "|"@ + r1;
    let m = y + "|"@ + r2;
    if x.len() < y.len() {
        assert(l[x.len() as int] == '|');
        assert(m[x.len() as int] == y[x.len() as int]);
        assert(false);
    }
    if y.len() < x.len() {
        assert(m[y.len() as int] == '|');
        assert(l[y.len() as int] == x[y.len() as int]);
        assert(false);
    }
    assert forall|i: int| 0 <= i < x.len() implies x[i] == y[i] by {
        assert(l[i] == x[i]);
        assert(m[i] == y[i]);
    }
    assert(x =~= y);
    lemma_cancel_left(x + "|"@, r1, r2);
}

/// Joins of equally many bar-free texts are equal only when the texts are.
pub proof fn lemma_bar_join_injective(fs: Seq<Seq<char>>, gs: Seq<Seq<char>>)
    requires
        fs.len() == gs.len(),
        fs.len() >= 1,
        forall|i: int| 0 <= i < fs.len() ==> !(#[trigger] fs[i]).contains('|'),
        forall|i: int| 0 <= i < gs.len() ==> !(#[trigger] gs[i]).contains('|'),
        bar_join(fs) == bar_join(gs),
    ensures
        fs == gs,
    decreases fs.len(),
{
    if fs.len() > 1 {
        lemma_split_at_bar(fs[0], bar_join(fs.drop_first()), gs[0], bar_join(gs.drop_first()));
        lemma_bar_join_injective(fs.drop_first(), gs.drop_first());
        assert(fs =~= seq![fs[0]] + fs.drop_first());
        assert(gs =~= seq![gs[0]] + gs.drop_first());
    } else {
        assert(fs =~= gs);
    }
}

/// None of a snapshot's key fields holds a `|`.
pub open spec fn bar_free(s: ActivitySnapshot) -> bool {
    forall|i: int| 0 <= i < 8 ==> !(#[trigger] key_fields(s)[i]).contains('|')
}

/// Snapshots whose fields hold no `|` have the same signature exactly when
/// they agree in app name, bundle id, window title, URL, page title, project,
/// file and branch (an absent text counting as empty) and in the idle flag:
/// a change of any of these starts a new segment, the working directory never
/// does.
pub proof fn law_signature_is_key(a: ActivitySnapshot, b: ActivitySnapshot)
    requires
        bar_free(a),
        bar_free(b),
    ensures
        a.spec_signature() == b.spec_signature() <==> (a.app_name@ == b.app_name@
            && a.app_bundle_id@ == b.app_bundle_id@ && a.window_title@ == b.window_title@
            && or_empty(a.context.url) == or_empty(b.context.url) && or_empty(
            a.context.page_title,
        ) == or_empty(b.context.page_title) && or_empty(a.context.project) == or_empty(
            b.context.project,
        ) && or_empty(a.context.file) == or_empty(b.context.file) && or_empty(
            a.context.git_branch,
        ) == or_empty(b.context.git_branch) && a.is_idle == b.is_idle),
{
    if a.spec_signature() == b.spec_signature() {
        lemma_signature_is_bar_join(a);
        lemma_signature_is_bar_join(b);
        let fa = key_fields(a);
        let fb = key_fields(b);
        reveal_strlit("true");
        reveal_strlit("false");
        assert(!fa[8].contains('|'));
        assert(!fb[8].contains('|'));
        assert forall|i: int| 0 <= i < fa.len() implies !(#[trigger] fa[i]).contains('|') by {
            if i < 8 {
                assert(!key_fields(a)[i].contains('|'));
            }
        }
        assert forall|i: int| 0 <= i < fb.len() implies !(#[trigger] fb[i]).contains('|') by {
            if i < 8 {
                assert(!key_fields(b)[i].contains('|'));
            }
        }
        lemma_bar_join_injective(fa, fb);
        assert(fa[0] == fb[0] && fa[1] == fb[1] && fa[2] == fb[2] && fa[3] == fb[3]);
        assert(fa[4] == fb[4] && fa[5] == fb[5] && fa[6] == fb[6] && fa[7] == fb[7]);
        assert(fa[8] == fb[8]);
        if a.is_idle != b.is_idle {
            assert(fa[8].len() != fb[8].len());
        }
    }
}

/// After a segment was opened for `s`, a snapshot that differs from `s` in
/// app name, bundle id, window title, URL, page title, project, file, branch or
/// idle flag starts a new segment (when no field holds a `|`).
pub proof fn law_changed_snapshot_starts_segment(
    t: SegmentTracker,
    s: ActivitySnapshot,
    next: ActivitySnapshot,
)
    requires
        t.spec_last_snapshot() == Some(s),
        bar_free(s),
        bar_free(next),
        !(s.app_name@ == next.app_name@ && s.app_bundle_id@ == next.app_bundle_id@
            && s.window_title@ == next.window_title@ && or_empty(s.context.url) == or_empty(
            next.context.url,
        ) && or_empty(s.context.page_title) == or_empty(next.context.page_title) && or_empty(
            s.context.project,
        ) == or_empty(next.context.project) && or_empty(s.context.file) == or_empty(
            next.context.file,
        ) && or_empty(s.context.git_branch) == or_empty(next.context.git_branch) && s.is_idle
            == next.is_idle),
    ensures
        t.spec_should_start_new_segment(next),
{
    law_signature_is_key(s, next);
}

/// A stored activity groups under the signature of the snapshot it was
/// recorded from.
pub proof fn law_grouping_key_is_signature(a: Activity, s: ActivitySnapshot)
    requires
        a.app_name == s.app_name,
        a.app_bundle_id == s.app_bundle_id,
        a.window_title == s.window_title,
        a.context == s.context,
        a.is_idle == s.is_idle,
    ensures
        a.spec_grouping_key() == s.spec_signature(),
{
}

/// The snapshot a segment was opened for continues that segment; a tracker
/// that never opened one starts a segment for any snapshot.
pub proof fn law_opened_snapshot_continues(t: SegmentTracker, s: ActivitySnapshot)
    ensures
        t.spec_last_snapshot() == Some(s) ==> !t.spec_should_start_new_segment(s),
        t.spec_last_snapshot() is None ==> t.spec_should_start_new_segment(s),
{
}

/// What remains after removing leading whitespace starts with a non-space.
pub proof fn lemma_trim_start_first(s: Seq<char>)
    ensures
        trim_start(s).len() > 0 ==> !is_ws(trim_start(s)[0]),
        trim_start(s).len() <= s.len(),
        trim_start(s) == s.subrange(s.len() - trim_start(s).len(), s.len() as int),
    decreases s.len(),
{
    if s.len() > 0 && is_ws(s[0]) {
        lemma_trim_start_first(s.drop_first());
        let t = trim_start(s.drop_first());
        assert(s.drop_first().subrange(s.len() - 1 - t.len(), s.len() - 1) =~= s.subrange(
            s.len() - t.len(),
            s.len() as int,
        ));
    } else {
        assert(s.subrange(0, s.len() as int) =~= s);
    }
}

/// What remains after removing trailing whitespace is a prefix that ends with
/// a non-space.
pub proof fn lemma_trim_end_last(s: Seq<char>)
    ensures
        trim_end(s).len() > 0 ==> !is_ws(trim_end(s).last()),
        trim_end(s).len() <= s.len(),
        trim_end(s) == s.subrange(0, trim_end(s).len() as int),
    decreases s.len(),
{
    if s.len() > 0 && is_ws(s.last()) {
        lemma_trim_end_last(s.drop_last());
        let t = trim_end(s.drop_last());
        assert(s.drop_last().subrange(0, t.len() as int) =~= s.subrange(0, t.len() as int));
    } else {
        assert(s.subrange(0, s.len() as int) =~= s);
    }
}

/// A trimmed text starts and ends with non-spaces.
pub proof fn lemma_trim_ends(s: Seq<char>)
    ensures
        trim(s).len() > 0 ==> !is_ws(trim(s)[0]) && !is_ws(trim(s).last()),
{
    let u = trim_start(s);
    lemma_trim_start_first(s);
    lemma_trim_end_last(u);
    if trim(s).len() > 0 {
        assert(trim(s)[0] == u[0]);
    }
}

/// A text that starts and ends with non-spaces is its own trim.
pub proof fn lemma_trim_fixpoint(s: Seq<char>)
    requires
        s.len() == 0 || (!is_ws(s[0]) && !is_ws(s.last())),
    ensures
        trim(s) == s,
{
}

/// Normalizing a normalized URL changes nothing.
pub proof fn law_normalize_url_idempotent(url: Seq<char>)
    requires
        normalized_url(url) is Some,
    ensures
        normalized_url(normalized_url(url)->0) == normalized_url(url),
{
    reveal_strlit("https://");
    reveal_strlit("http://");
    let t = trim(url);
    lemma_trim_ends(url);
    lemma_trim_fixpoint(t);
    let n = normalized_url(url)->0;
    if has_prefix(t, "http://"@) || has_prefix(t, "https://"@) {
        assert(n == t);
    } else {
        assert(n == "https://"@ + t);
        assert(n[0] == 'h');
        assert(n.last() == t.last());
        lemma_trim_fixpoint(n);
        assert(n.subrange(0, 8) =~= "https://"@);
    }
}

/// The digit characters and their values.
pub proof fn lemma_digit_char(d: nat)
    requires
        d < 10,
    ensures
        is_digit(digit_char(d)),
        digit_char(d) != '+',
        digit_char(d) != ':',
        (digit_char(d) as u32 - '0' as u32) as nat == d,
{
}

/// Two-digit padding of a number below 100 is its two decimal digits.
pub proof fn lemma_pad2_digits(n: nat)
    requires
        n < 100,
    ensures
        pad2(n) == seq![digit_char(n / 10), digit_char(n % 10)],
        parse_u16_spec(pad2(n)) == Some(n),
{
    if n >= 10 {
        reveal_with_fuel(decimal, 2);
        assert(decimal(n) =~= seq![digit_char(n / 10), digit_char(n % 10)]);
    }
    let p = pad2(n);
    lemma_digit_char(n / 10);
    lemma_digit_char(n % 10);
    assert(unsigned_digits(p) == p);
    assert(all_digits(p));
    assert(p.drop_last() =~= seq![digit_char(n / 10)]);
    let q = p.drop_last();
    assert(q.drop_last() =~= Seq::<char>::empty());
    assert(digits_value(q.drop_last()) == 0);
    assert(q.last() == digit_char(n / 10));
    assert(digits_value(q) == digits_value(q.drop_last()) * 10 + ((q.last() as u32 - '0' as u32) as nat));
    assert(digits_value(q) == n / 10);
    assert(p.last() == digit_char(n % 10));
    assert(digits_value(p) == n);
}

/// A time label reads back as the minutes it shows: `parse_hh_mm` of
/// `format_minutes(m)` is `m` for every minute of a day.
pub proof fn law_minutes_label_round_trip(m: nat)
    requires
        m < 24 * 60,
    ensures
        hh_mm_value(minutes_label(m)) == Some(m),
{
    reveal_strlit(":");
    let h = m / 60;
    let mm = m % 60;
    lemma_pad2_digits(h);
    lemma_pad2_digits(mm);
    lemma_digit_char(h / 10);
    lemma_digit_char(h % 10);
    let label = minutes_label(m);
    assert(label =~= seq![
        digit_char(h / 10),
        digit_char(h % 10),
        ':',
        digit_char(mm / 10),
        digit_char(mm % 10),
    ]);
    reveal_with_fuel(find_char, 4);
    assert(find_char(label, ':', 0) == Some(2int));
    assert(label.subrange(0, 2) =~= pad2(h));
    assert(label.subrange(3, 5) =~= pad2(mm));
}

/// No first group ending in `[a, f)` matches, so the scan reaches `f`.
proof fn lemma_first_split_skip(t: Seq<char>, a: int, f: int)
    requires
        1 <= a <= f,
        forall|k: int| a <= k < f ==> !#[trigger] zed_split_at(t, k),
    ensures
        zed_first_split(t, a) == zed_first_split(t, f),
    decreases f - a,
{
    if a < f {
        assert(!zed_split_at(t, a));
        if a <= t.len() {
            assert(zed_first_split(t, a) == zed_first_split(t, a + 1));
        }
        lemma_first_split_skip(t, a + 1, f);
        if a > t.len() {
            assert(zed_first_split(t, a + 1) is None);
            assert(zed_first_split(t, a) is None);
        }
    }
}

/// A title written as `{file} — {project}` reads back as that file and
/// project, when the file name has no dash or line break and neither part has
/// whitespace at its ends or a line break.
pub proof fn law_zed_title_round_trip(file: Seq<char>, project: Seq<char>)
    requires
        file.len() > 0,
        !is_ws(file[0]),
        !is_ws(file.last()),
        forall|i: int| 0 <= i < file.len() ==> !is_dash(#[trigger] file[i]) && file[i] != '\n',
        project.len() > 0,
        !is_ws(project[0]),
        !is_ws(project.last()),
        no_newline(project),
    ensures
        zed_title_fields(file + seq![' ', '\u{2014}', ' '] + project) == Some((file, project)),
{
    let t = file + seq![' ', '\u{2014}', ' '] + project;
    let f = file.len() as int;
    assert(t[0] == file[0]);
    assert(t.last() == project.last());
    lemma_trim_fixpoint(t);
    lemma_trim_fixpoint(file);
    lemma_trim_fixpoint(project);
    assert forall|a: int| 1 <= a < f implies !#[trigger] zed_split_at(t, a) by {
        lemma_ws_run_end_bounds(t, a);
        let b = ws_run_end(t, a);
        assert(t[f - 1] == file[f - 1]);
        if b > f - 1 {
            assert(is_ws(t[f - 1]));
        }
        assert(t[b] == file[b]);
    }
    lemma_first_split_skip(t, 1, f);
    assert(t[f] == ' ');
    assert(t[f + 1] == '\u{2014}');
    assert(ws_run_end(t, f + 1) == f + 1);
    assert(ws_run_end(t, f) == f + 1);
    let rest = t.subrange(f + 2, t.len() as int);
    assert(rest =~= seq![' '] + project);
    assert(rest.drop_first() =~= project);
    assert(trim_start(project) == project);
    assert(trim_start(rest) == project);
    assert(t.subrange(0, f) =~= file);
    assert(no_newline(t.subrange(0, f)));
    assert(zed_split_at(t, f));
    assert(zed_first_split(t, f) == Some(f));
    assert(zed_title_match(t) == Some((file, project)));
}

/// A normalized URL always has an `http://` or `https://` scheme.
pub proof fn law_normalized_url_has_scheme(url: Seq<char>)
    requires
        normalized_url(url) is Some,
    ensures
        has_prefix(normalized_url(url)->0, "http://"@) || has_prefix(
            normalized_url(url)->0,
            "https://"@,
        ),
{
    reveal_strlit("https://");
    let t = trim(url);
    if !(has_prefix(t, "http://"@) || has_prefix(t, "https://"@)) {
        let n = "https://"@ + t;
        assert(n.subrange(0, 8) =~= "https://"@);
    }
}

/// The host shown for a URL never contains a `/`.
pub proof fn law_display_host_has_no_slash(url: Seq<char>)
    ensures
        !url_host(url).contains('/'),
{
    let s = crate::parser::browser::strip_all_prefix(
        crate::parser::browser::strip_all_prefix(url, "https://"@),
        "http://"@,
    );
    lemma_find_char(s, '/', 0);
    let h = before_slash(s);
    if h.contains('/') {
        let j = choose|j: int| 0 <= j < h.len() && h[j] == '/';
        assert(h[j] == s[j]);
    }
}

/// Enriching leaves every app but Zed and the terminals as it was, except that
/// its URL is normalized.
pub proof fn law_enrich_leaves_other_apps(
    snapshot: ActivitySnapshot,
    hook_state: Option<TerminalContext>,
    r: ActivitySnapshot,
)
    requires
        enriched_as(snapshot, hook_state, r),
        !is_zed_bundle(snapshot.app_bundle_id@),
        !is_terminal_bundle(snapshot.app_bundle_id@),
    ensures
        r.app_name == snapshot.app_name,
        r.app_bundle_id == snapshot.app_bundle_id,
        r.window_title == snapshot.window_title,
        r.is_idle == snapshot.is_idle,
        r.context.page_title == snapshot.context.page_title,
        r.context.project == snapshot.context.project,
        r.context.file == snapshot.context.file,
        r.context.cwd == snapshot.context.cwd,
        r.context.git_branch == snapshot.context.git_branch,
{
}

/// Work hours: off means always tracking; a window with `start <= end` covers
/// `[start, end)`; one with `start > end` wraps past midnight and covers all but
/// `[end, start)`.
pub proof fn law_work_hours_window(w: WorkHoursSettings, m: int)
    ensures
        !w.enabled ==> w.active_at(m),
        w.enabled && w.start_minutes <= w.end_minutes ==> (w.active_at(m) <==> w.start_minutes
            <= m < w.end_minutes),
        w.enabled && w.start_minutes > w.end_minutes ==> (w.active_at(m) <==> !(w.end_minutes
            <= m < w.start_minutes)),
{
}

/// `parse_hh_mm` only gives minutes of a day.
pub proof fn law_parsed_time_within_day(text: Seq<char>)
    ensures
        hh_mm_value(text) matches Some(m) ==> m < 24 * 60,
{
}

/// `a` is the same instant as `b` or an earlier one.
pub open spec fn not_after(a: Timestamp, b: Timestamp) -> bool {
    a.spec_secs() < b.spec_secs() || (a.spec_secs() == b.spec_secs() && a.spec_nanos()
        <= b.spec_nanos())
}

/// The whole seconds elapsed since `from` never shrink as the end moves later.
pub proof fn lemma_elapsed_grows(from: Timestamp, to1: Timestamp, to2: Timestamp)
    requires
        timestamp_in_range(to1.spec_secs(), to1.spec_nanos()),
        timestamp_in_range(to2.spec_secs(), to2.spec_nanos()),
        not_after(to1, to2),
    ensures
        elapsed_whole_secs(from, to1) <= elapsed_whole_secs(from, to2),
{
    let d1 = (to1.spec_secs() - from.spec_secs()) * 1_000_000_000 + (to1.spec_nanos()
        - from.spec_nanos());
    let d2 = (to2.spec_secs() - from.spec_secs()) * 1_000_000_000 + (to2.spec_nanos()
        - from.spec_nanos());
    assert(d1 <= d2) by (nonlinear_arith)
        requires
            d1 == (to1.spec_secs() - from.spec_secs()) * 1_000_000_000 + (to1.spec_nanos()
                - from.spec_nanos()),
            d2 == (to2.spec_secs() - from.spec_secs()) * 1_000_000_000 + (to2.spec_nanos()
                - from.spec_nanos()),
            0 <= to1.spec_nanos() < 1_000_000_000,
            0 <= to2.spec_nanos() < 1_000_000_000,
            to1.spec_secs() < to2.spec_secs() || (to1.spec_secs() == to2.spec_secs()
                && to1.spec_nanos() <= to2.spec_nanos()),
    ;
    if d1 > 0 {
        vstd::arithmetic::div_mod::lemma_div_is_ordered(d1, d2, 1_000_000_000);
    }
}

/// The total time of activities seen at a later instant is never smaller, and
/// when every activity is closed it does not change: closed activities count
/// their stored durations, open ones the time since they started.
pub proof fn law_total_grows_with_now(
    activities: Seq<Activity>,
    now1: Timestamp,
    now2: Timestamp,
    n: int,
)
    requires
        timestamp_in_range(now1.spec_secs(), now1.spec_nanos()),
        timestamp_in_range(now2.spec_secs(), now2.spec_nanos()),
        not_after(now1, now2),
        0 <= n <= activities.len(),
    ensures
        durations_sum(activities, now1, n) <= durations_sum(activities, now2, n),
        (forall|i: int| 0 <= i < n ==> #[trigger] activities[i].ended_at is Some) ==> durations_sum(
            activities,
            now1,
            n,
        ) == durations_sum(activities, now2, n),
    decreases n,
{
    if n > 0 {
        law_total_grows_with_now(activities, now1, now2, n - 1);
        lemma_elapsed_grows(activities[n - 1].started_at, now1, now2);
    }
}

/// RFC 4180 reading of a quoted field's body, after its opening quote: `""`
/// stands for one quote and a lone `"` closes the field. Gives the field's
/// value and the text after the closing quote.
pub open spec fn read_quoted(s: Seq<char>) -> Option<(Seq<char>, Seq<char>)>
    decreases s.len(),
{
    if s.len() == 0 {
        None
    } else if s[0] == '"' {
        if s.len() >= 2 && s[1] == '"' {
            match read_quoted(s.skip(2)) {
                Some((v, r)) => Some((seq!['"'] + v, r)),
                None => None,
            }
        } else {
            Some((Seq::empty(), s.drop_first()))
        }
    } else {
        match read_quoted(s.drop_first()) {
            Some((v, r)) => Some((seq![s[0]] + v, r)),
            None => None,
        }
    }
}

/// The length of an unquoted field: the characters before the first `,` or
/// line break.
pub open spec fn unquoted_len(s: Seq<char>) -> nat
    decreases s.len(),
{
    if s.len() == 0 || s[0] == ',' || s[0] == '\n' {
        0
    } else {
        1 + unquoted_len(s.drop_first())
    }
}

/// RFC 4180 reading of one field at the start of `s`: its value and the text
/// after it.
pub open spec fn read_field(s: Seq<char>) -> Option<(Seq<char>, Seq<char>)> {
    if s.len() > 0 && s[0] == '"' {
        read_quoted(s.drop_first())
    } else {
        Some((s.take(unquoted_len(s) as int), s.skip(unquoted_len(s) as int)))
    }
}

/// `"` is written as `""`, other characters as they are: the front of
/// `double_quotes`.
pub proof fn lemma_double_quotes_front(v: Seq<char>)
    requires
        v.len() > 0,
    ensures
        double_quotes(v) == (if v[0] == '"' {
            seq!['"', '"']
        } else {
            seq![v[0]]
        }) + double_quotes(v.drop_first()),
    decreases v.len(),
{
    if v.len() == 1 {
        assert(v.drop_last() =~= Seq::<char>::empty());
        assert(v.drop_first() =~= Seq::<char>::empty());
        assert(double_quotes(Seq::<char>::empty()) =~= Seq::<char>::empty());
    } else {
        lemma_double_quotes_front(v.drop_last());
        assert(v.drop_last().drop_first() =~= v.drop_first().drop_last());
        assert(v.drop_first().last() == v.last());
        assert(v.drop_last()[0] == v[0]);
    }
}

/// A quoted body written with doubled quotes and a closing quote reads back as
/// the value, when what follows does not start with a quote.
pub proof fn lemma_read_quoted_back(v: Seq<char>, rest: Seq<char>)
    requires
        rest.len() == 0 || rest[0] != '"',
    ensures
        read_quoted(double_quotes(v) + seq!['"'] + rest) == Some((v, rest)),
    decreases v.len(),
{
    if v.len() == 0 {
        assert(double_quotes(v) =~= Seq::<char>::empty());
        let s = double_quotes(v) + seq!['"'] + rest;
        assert(s =~= seq!['"'] + rest);
        assert(s.drop_first() =~= rest);
    } else {
        lemma_double_quotes_front(v);
        lemma_read_quoted_back(v.drop_first(), rest);
        let s = double_quotes(v) + seq!['"'] + rest;
        let t = double_quotes(v.drop_first()) + seq!['"'] + rest;
        if v[0] == '"' {
            assert(s =~= seq!['"', '"'] + t);
            assert(s.skip(2) =~= t);
            assert(seq!['"'] + v.drop_first() =~= v);
        } else {
            assert(s =~= seq![v[0]] + t);
            assert(s.drop_first() =~= t);
            assert(seq![v[0]] + v.drop_first() =~= v);
        }
    }
}

/// An unquoted field without `,` or line breaks ends where the separator after
/// it starts.
pub proof fn lemma_unquoted_len_back(v: Seq<char>, rest: Seq<char>)
    requires
        !v.contains(','),
        !v.contains('\n'),
        rest.len() > 0,
        rest[0] == ',' || rest[0] == '\n',
    ensures
        unquoted_len(v + rest) == v.len(),
    decreases v.len(),
{
    if v.len() == 0 {
        assert(v + rest =~= rest);
    } else {
        assert(!v.drop_first().contains(',')) by {
            if v.drop_first().contains(',') {
                let i = choose|i: int| 0 <= i < v.drop_first().len() && v.drop_first()[i] == ',';
                assert(v[i + 1] == ',');
            }
        }
        assert(!v.drop_first().contains('\n')) by {
            if v.drop_first().contains('\n') {
                let i = choose|i: int|
                    0 <= i < v.drop_first().len() && v.drop_first()[i] == '\n';
                assert(v[i + 1] == '\n');
            }
        }
        assert(v[0] != ',');
        assert(v[0] != '\n');
        lemma_unquoted_len_back(v.drop_first(), rest);
        assert((v + rest).drop_first() =~= v.drop_first() + rest);
    }
}

/// A field written as CSV reads back as its value when a `,` or a line break
/// follows it.
pub proof fn lemma_read_field_back(v: Seq<char>, rest: Seq<char>)
    requires
        rest.len() > 0,
        rest[0] == ',' || rest[0] == '\n',
    ensures
        read_field(csv_field(v) + rest) == Some((v, rest)),
{
    let s = csv_field(v) + rest;
    if needs_quoting(v) {
        lemma_read_quoted_back(v, rest);
        assert(s =~= seq!['"'] + (double_quotes(v) + seq!['"'] + rest));
        assert(s.drop_first() =~= double_quotes(v) + seq!['"'] + rest);
    } else {
        lemma_unquoted_len_back(v, rest);
        assert(s =~= v + rest);
        if v.len() > 0 {
            assert(v[0] != '"');
        }
        assert(s.take(v.len() as int) =~= v);
        assert(s.skip(v.len() as int) =~= rest);
    }
}

/// Reading a quoted body consumes at least its closing quote.
pub proof fn lemma_read_quoted_shrinks(s: Seq<char>)
    ensures
        read_quoted(s) matches Some((v, r)) ==> r.len() < s.len(),
    decreases s.len(),
{
    if s.len() > 0 {
        if s[0] == '"' {
            if s.len() >= 2 && s[1] == '"' {
                lemma_read_quoted_shrinks(s.skip(2));
            }
        } else {
            lemma_read_quoted_shrinks(s.drop_first());
        }
    }
}

/// Reading a field never grows the text.
pub proof fn lemma_read_field_shrinks(s: Seq<char>)
    ensures
        read_field(s) matches Some((v, r)) ==> r.len() <= s.len(),
{
    if s.len() > 0 && s[0] == '"' {
        lemma_read_quoted_shrinks(s.drop_first());
    } else {
        lemma_unquoted_len_bound(s);
    }
}

pub proof fn lemma_unquoted_len_bound(s: Seq<char>)
    ensures
        unquoted_len(s) <= s.len(),
    decreases s.len(),
{
    if s.len() > 0 {
        lemma_unquoted_len_bound(s.drop_first());
    }
}

/// RFC 4180 reading of one record (with `\n` ending records): fields
/// separated by `,` up to a line break. Gives the fields and the text after
/// the line break.
pub open spec fn read_record(s: Seq<char>) -> Option<(Seq<Seq<char>>, Seq<char>)>
    decreases s.len(),
{
    match read_field(s) {
        None => None,
        Some((v, r)) => if r.len() > 0 && r[0] == '\n' {
            Some((seq![v], r.drop_first()))
        } else if r.len() > 0 && r[0] == ',' {
            proof {
                lemma_read_field_shrinks(s);
            }
            match read_record(r.drop_first()) {
                Some((vs, rest)) => Some((seq![v] + vs, rest)),
                None => None,
            }
        } else {
            None
        },
    }
}

/// Reading a record consumes at least its line break.
pub proof fn lemma_read_record_shrinks(s: Seq<char>)
    ensures
        read_record(s) matches Some((f, r)) ==> r.len() < s.len(),
    decreases s.len(),
{
    lemma_read_field_shrinks(s);
    match read_field(s) {
        None => {},
        Some((v, r)) => {
            if !(r.len() > 0 && r[0] == '\n') && r.len() > 0 && r[0] == ',' {
                lemma_read_record_shrinks(r.drop_first());
            }
        },
    }
}

/// RFC 4180 reading of a whole document: its records until the text is used
/// up, each as its fields.
#[verifier::opaque]
pub open spec fn read_records(s: Seq<char>) -> Option<Seq<Seq<Seq<char>>>>
    decreases s.len(),
{
    if s.len() == 0 {
        Some(Seq::empty())
    } else {
        match read_record(s) {
            Some((fields, rest)) => {
                proof {
                    lemma_read_record_shrinks(s);
                }
                match read_records(rest) {
                    Some(rs) => Some(seq![fields] + rs),
                    None => None,
                }
            },
            None => None,
        }
    }
}

/// A record written as CSV: its fields escaped, joined by `,`, ended by `\n`.
pub open spec fn record_text(fields: Seq<Seq<char>>) -> Seq<char>
    decreases fields.len(),
{
    if fields.len() == 0 {
        seq!['\n']
    } else if fields.len() == 1 {
        csv_field(fields[0]) + seq!['\n']
    } else {
        csv_field(fields[0]) + seq![','] + record_text(fields.drop_first())
    }
}

/// A record written as CSV reads back as its fields.
pub proof fn lemma_read_record_back(fields: Seq<Seq<char>>, rest: Seq<char>)
    requires
        fields.len() >= 1,
    ensures
        read_record(record_text(fields) + rest) == Some((fields, rest)),
    decreases fields.len(),
{
    let s = record_text(fields) + rest;
    if fields.len() == 1 {
        lemma_read_field_back(fields[0], seq!['\n'] + rest);
        assert(s =~= csv_field(fields[0]) + (seq!['\n'] + rest));
        assert((seq!['\n'] + rest).drop_first() =~= rest);
        assert(seq![fields[0]] =~= fields);
    } else {
        let t = record_text(fields.drop_first()) + rest;
        lemma_read_field_back(fields[0], seq![','] + t);
        assert(s =~= csv_field(fields[0]) + (seq![','] + t));
        assert((seq![','] + t).drop_first() =~= t);
        lemma_read_record_back(fields.drop_first(), rest);
        assert(seq![fields[0]] + fields.drop_first() =~= fields);
    }
}

/// A document of records written as CSV, followed by `tail`, reads back as
/// those records followed by what `tail` reads as.
pub proof fn lemma_read_records_prefix(fields: Seq<Seq<char>>, tail: Seq<char>)
    requires
        fields.len() >= 1,
    ensures
        read_records(record_text(fields) + tail) == match read_records(tail) {
            Some(rs) => Some(seq![fields] + rs),
            None => None::<Seq<Seq<Seq<char>>>>,
        },
{
    reveal(read_records);
    lemma_read_record_back(fields, tail);
    let s = record_text(fields) + tail;
    assert(s.len() > 0) by {
        assert(record_text(fields).len() > 0) by {
            reveal_with_fuel(record_text, 2);
        }
    }
}

/// The fields of an exported row in header order: absent texts empty, the
/// idle flag as `true` or `false`.
pub open spec fn row_fields(row: ExportRow) -> Seq<Seq<char>> {
    seq![
        row.started_at@,
        or_empty(row.ended_at),
        int_text(row.duration_secs as int),
        row.app_name@,
        row.app_bundle_id@,
        row.window_title@,
        or_empty(row.url),
        or_empty(row.page_title),
        or_empty(row.project),
        or_empty(row.file),
        or_empty(row.cwd),
        or_empty(row.git_branch),
        bool_text(row.is_idle),
    ]
}

/// A record of at least two fields is its first field, a comma, and the
/// record of the rest, here from field `k` on.
pub proof fn lemma_record_text_step(fields: Seq<Seq<char>>, k: int)
    requires
        0 <= k < fields.len() - 1,
    ensures
        record_text(fields.skip(k)) == csv_field(fields[k]) + seq![','] + record_text(
            fields.skip(k + 1),
        ),
{
    assert(fields.skip(k).drop_first() =~= fields.skip(k + 1));
}

/// Moving a separator and a field from the end of a prefix to the front of
/// the rest.
pub proof fn lemma_regroup(p: Seq<char>, x: Seq<char>, r: Seq<char>)
    ensures
        p + ","@ + x + ","@ + r == p + ","@ + (x + seq![','] + r),
{
    reveal_strlit(",");
    assert(p + ","@ + x + ","@ + r =~= p + ","@ + (x + seq![','] + r));
}

/// The record of thirteen fields, written out left to right.
#[verifier::rlimit(50)]
pub proof fn lemma_record_text_13(f: Seq<Seq<char>>)
    requires
        f.len() == 13,
    ensures
        record_text(f) == csv_field(f[0]) + ","@ + csv_field(f[1]) + ","@ + csv_field(f[2]) + ","@ + csv_field(f[3]) + ","@ + csv_field(f[4]) + ","@ + csv_field(f[5]) + ","@ + csv_field(f[6]) + ","@ + csv_field(f[7]) + ","@ + csv_field(f[8]) + ","@ + csv_field(f[9]) + ","@ + csv_field(f[10]) + ","@ + csv_field(f[11]) + ","@ + csv_field(f[12]) + "\n"@,
{
    reveal_strlit(",");
    reveal_strlit("\n");
    assert(f.skip(12) =~= seq![f[12]]);
    assert(record_text(f.skip(12)) == csv_field(f[12]) + seq!['\n']);
    assert(csv_field(f[0]) + ","@ + csv_field(f[1]) + ","@ + csv_field(f[2]) + ","@ + csv_field(f[3]) + ","@ + csv_field(f[4]) + ","@ + csv_field(f[5]) + ","@ + csv_field(f[6]) + ","@ + csv_field(f[7]) + ","@ + csv_field(f[8]) + ","@ + csv_field(f[9]) + ","@ + csv_field(f[10]) + ","@ + csv_field(f[11]) + ","@ + csv_field(f[12]) + "\n"@ == csv_field(f[0]) + ","@ + csv_field(f[1]) + ","@ + csv_field(f[2]) + ","@ + csv_field(f[3]) + ","@ + csv_field(f[4]) + ","@ + csv_field(f[5]) + ","@ + csv_field(f[6]) + ","@ + csv_field(f[7]) + ","@ + csv_field(f[8]) + ","@ + csv_field(f[9]) + ","@ + csv_field(f[10]) + ","@ + csv_field(f[11]) + ","@ + record_text(f.skip(12))) by {
        assert(csv_field(f[0]) + ","@ + csv_field(f[1]) + ","@ + csv_field(f[2]) + ","@ + csv_field(f[3]) + ","@ + csv_field(f[4]) + ","@ + csv_field(f[5]) + ","@ + csv_field(f[6]) + ","@ + csv_field(f[7]) + ","@ + csv_field(f[8]) + ","@ + csv_field(f[9]) + ","@ + csv_field(f[10]) + ","@ + csv_field(f[11]) + ","@ + csv_field(f[12]) + "\n"@ =~= csv_field(f[0]) + ","@ + csv_field(f[1]) + ","@ + csv_field(f[2]) + ","@ + csv_field(f[3]) + ","@ + csv_field(f[4]) + ","@ + csv_field(f[5]) + ","@ + csv_field(f[6]) + ","@ + csv_field(f[7]) + ","@ + csv_field(f[8]) + ","@ + csv_field(f[9]) + ","@ + csv_field(f[10]) + ","@ + csv_field(f[11]) + ","@ + (csv_field(f[12]) + seq!['\n']));
    }
    lemma_regroup(csv_field(f[0]) + ","@ + csv_field(f[1]) + ","@ + csv_field(f[2]) + ","@ + csv_field(f[3]) + ","@ + csv_field(f[4]) + ","@ + csv_field(f[5]) + ","@ + csv_field(f[6]) + ","@ + csv_field(f[7]) + ","@ + csv_field(f[8]) + ","@ + csv_field(f[9]) + ","@ + csv_field(f[10]), csv_field(f[11]), record_text(f.skip(12)));
    lemma_record_text_step(f, 11);
    lemma_regroup(csv_field(f[0]) + ","@ + csv_field(f[1]) + ","@ + csv_field(f[2]) + ","@ + csv_field(f[3]) + ","@ + csv_field(f[4]) + ","@ + csv_field(f[5]) + ","@ + csv_field(f[6]) + ","@ + csv_field(f[7]) + ","@ + csv_field(f[8]) + ","@ + csv_field(f[9]), csv_field(f[10]), record_text(f.skip(11)));
    lemma_record_text_step(f, 10);
    lemma_regroup(csv_field(f[0]) + ","@ + csv_field(f[1]) + ","@ + csv_field(f[2]) + ","@ + csv_field(f[3]) + ","@ + csv_field(f[4]) + ","@ + csv_field(f[5]) + ","@ + csv_field(f[6]) + ","@ + csv_field(f[7]) + ","@ + csv_field(f[8]), csv_field(f[9]), record_text(f.skip(10)));
    lemma_record_text_step(f, 9);
    lemma_regroup(csv_field(f[0]) + ","@ + csv_field(f[1]) + ","@ + csv_field(f[2]) + ","@ + csv_field(f[3]) + ","@ + csv_field(f[4]) + ","@ + csv_field(f[5]) + ","@ + csv_field(f[6]) + ","@ + csv_field(f[7]), csv_field(f[8]), record_text(f.skip(9)));
    lemma_record_text_step(f, 8);
    lemma_regroup(csv_field(f[0]) + ","@ + csv_field(f[1]) + ","@ + csv_field(f[2]) + ","@ + csv_field(f[3]) + ","@ + csv_field(f[4]) + ","@ + csv_field(f[5]) + ","@ + csv_field(f[6]), csv_field(f[7]), record_text(f.skip(8)));
    lemma_record_text_step(f, 7);
    lemma_regroup(csv_field(f[0]) + ","@ + csv_field(f[1]) + ","@ + csv_field(f[2]) + ","@ + csv_field(f[3]) + ","@ + csv_field(f[4]) + ","@ + csv_field(f[5]), csv_field(f[6]), record_text(f.skip(7)));
    lemma_record_text_step(f, 6);
    lemma_regroup(csv_field(f[0]) + ","@ + csv_field(f[1]) + ","@ + csv_field(f[2]) + ","@ + csv_field(f[3]) + ","@ + csv_field(f[4]), csv_field(f[5]), record_text(f.skip(6)));
    lemma_record_text_step(f, 5);
    lemma_regroup(csv_field(f[0]) + ","@ + csv_field(f[1]) + ","@ + csv_field(f[2]) + ","@ + csv_field(f[3]), csv_field(f[4]), record_text(f.skip(5)));
    lemma_record_text_step(f, 4);
    lemma_regroup(csv_field(f[0]) + ","@ + csv_field(f[1]) + ","@ + csv_field(f[2]), csv_field(f[3]), record_text(f.skip(4)));
    lemma_record_text_step(f, 3);
    lemma_regroup(csv_field(f[0]) + ","@ + csv_field(f[1]), csv_field(f[2]), record_text(f.skip(3)));
    lemma_record_text_step(f, 2);
    lemma_regroup(csv_field(f[0]), csv_field(f[1]), record_text(f.skip(2)));
    lemma_record_text_step(f, 1);
    lemma_record_text_step(f, 0);
    assert(f.skip(0) =~= f);
}

/// One row's CSV line is the record of its fields.
pub proof fn lemma_csv_line_is_record(row: ExportRow)
    ensures
        csv_line(row) == record_text(row_fields(row)),
{
    lemma_record_text_13(row_fields(row));
}

/// The names of the exported columns, in order.
pub open spec fn header_fields() -> Seq<Seq<char>> {
    seq![
        "started_at"@,
        "ended_at"@,
        "duration_secs"@,
        "app_name"@,
        "app_bundle_id"@,
        "window_title"@,
        "url"@,
        "page_title"@,
        "project"@,
        "file"@,
        "cwd"@,
        "git_branch"@,
        "is_idle"@,
    ]
}

/// The CSV header line is the record of the column names.
#[verifier::rlimit(50)]
pub proof fn lemma_csv_header_is_record()
    ensures
        csv_header() == record_text(header_fields()),
{
    let h = header_fields();
    lemma_record_text_13(h);
    reveal_strlit("started_at");
    reveal_strlit("ended_at");
    reveal_strlit("duration_secs");
    reveal_strlit("app_name");
    reveal_strlit("app_bundle_id");
    reveal_strlit("window_title");
    reveal_strlit("url");
    reveal_strlit("page_title");
    reveal_strlit("project");
    reveal_strlit("file");
    reveal_strlit("cwd");
    reveal_strlit("git_branch");
    reveal_strlit("is_idle");
    reveal_strlit(",");
    reveal_strlit("\n");
    reveal_strlit("started_at,ended_at,duration_secs,app_name,app_bundle_id,window_title,url,page_title,project,file,cwd,git_branch,is_idle\n");
    assert(!needs_quoting("started_at"@));
    assert(!needs_quoting("ended_at"@));
    assert(!needs_quoting("duration_secs"@));
    assert(!needs_quoting("app_name"@));
    assert(!needs_quoting("app_bundle_id"@));
    assert(!needs_quoting("window_title"@));
    assert(!needs_quoting("url"@));
    assert(!needs_quoting("page_title"@));
    assert(!needs_quoting("project"@));
    assert(!needs_quoting("file"@));
    assert(!needs_quoting("cwd"@));
    assert(!needs_quoting("git_branch"@));
    assert(!needs_quoting("is_idle"@));
    assert(csv_header() =~= "started_at"@ + ","@ + "ended_at"@ + ","@ + "duration_secs"@ + ","@ + "app_name"@ + ","@ + "app_bundle_id"@ + ","@ + "window_title"@ + ","@ + "url"@ + ","@ + "page_title"@ + ","@ + "project"@ + ","@ + "file"@ + ","@ + "cwd"@ + ","@ + "git_branch"@ + ","@ + "is_idle"@ + "\n"@);
}

/// The fields of each row, in order.
pub open spec fn rows_fields(rows: Seq<ExportRow>) -> Seq<Seq<Seq<char>>> {
    Seq::new(rows.len(), |i: int| row_fields(rows[i]))
}

/// The rows' CSV lines followed by `tail` read back as the rows' fields
/// followed by what `tail` reads as.
pub proof fn lemma_read_csv_lines(rows: Seq<ExportRow>, tail: Seq<char>)
    ensures
        read_records(csv_lines(rows) + tail) == match read_records(tail) {
            Some(rs) => Some(rows_fields(rows) + rs),
            None => None::<Seq<Seq<Seq<char>>>>,
        },
    decreases rows.len(),
{
    if rows.len() == 0 {
        assert(csv_lines(rows) + tail =~= tail);
        match read_records(tail) {
            Some(rs) => {
                assert(rows_fields(rows) + rs =~= rs);
            },
            None => {},
        }
    } else {
        let last = rows.last();
        let t2 = csv_line(last) + tail;
        let fl = row_fields(last);
        assert(csv_lines(rows) + tail == csv_lines(rows.drop_last()) + t2) by {
            assert(csv_lines(rows) + tail =~= csv_lines(rows.drop_last()) + t2);
        }
        lemma_read_csv_lines(rows.drop_last(), t2);
        assert(read_records(t2) == match read_records(tail) {
            Some(rs) => Some(seq![fl] + rs),
            None => None::<Seq<Seq<Seq<char>>>>,
        }) by {
            lemma_csv_line_is_record(last);
            lemma_read_records_prefix(fl, tail);
        }
        assert(rows_fields(rows) == rows_fields(rows.drop_last()).push(fl)) by {
            assert(rows_fields(rows) =~= rows_fields(rows.drop_last()).push(fl));
        }
        match read_records(tail) {
            Some(rs) => {
                assert(rows_fields(rows.drop_last()) + (seq![fl] + rs) =~= rows_fields(
                    rows.drop_last(),
                ).push(fl) + rs);
            },
            None => {},
        }
    }
}

/// An RFC 4180 reader (records ending in a line break) reads the exported CSV
/// back as the header's column names followed by one record per row, holding
/// that row's thirteen fields in header order.
pub proof fn law_csv_reads_back(rows: Seq<ExportRow>)
    ensures
        read_records(csv_header() + csv_lines(rows)) == Some(
            seq![header_fields()] + rows_fields(rows),
        ),
{
    lemma_csv_header_is_record();
    lemma_read_records_prefix(header_fields(), csv_lines(rows));
    lemma_read_csv_lines(rows, Seq::empty());
    assert(csv_lines(rows) + Seq::<char>::empty() =~= csv_lines(rows));
    assert(read_records(Seq::<char>::empty()) == Some(Seq::<Seq<Seq<char>>>::empty())) by {
        reveal(read_records);
    }
    assert(rows_fields(rows) + Seq::<Seq<Seq<char>>>::empty() =~= rows_fields(rows));
}

/// A duration of an hour or more shows its whole hours and the whole minutes
/// left over: `{h}h` when no minute is left, else `{h}h {m}m`; together they
/// account for all but the last partial minute.
pub proof fn law_duration_label_hours(secs: int)
    requires
        secs >= 3600,
    ensures
        ({
            let h = secs / 3600;
            let m = (secs % 3600) / 60;
            &&& 0 <= m < 60
            &&& h * 3600 + m * 60 <= secs < h * 3600 + m * 60 + 60
            &&& duration_label(secs) == if m == 0 {
                decimal(h as nat) + "h"@
            } else {
                decimal(h as nat) + "h "@ + decimal(m as nat) + "m"@
            }
        }),
{
    let h = secs / 3600;
    let m = (secs % 3600) / 60;
    assert(secs / 60 / 60 == h && (secs / 60) % 60 == m && 0 <= m < 60 && h * 3600 + m * 60
        <= secs < h * 3600 + m * 60 + 60 && secs / 60 >= 60) by (nonlinear_arith)
        requires
            secs >= 3600,
            h == secs / 3600,
            m == (secs % 3600) / 60,
    ;
}

/// A duration between a minute and an hour shows its whole minutes as `{m} Min`.
pub proof fn law_duration_label_minutes(secs: int)
    requires
        60 <= secs < 3600,
    ensures
        duration_label(secs) == decimal((secs / 60) as nat) + " Min"@,
        (secs / 60) * 60 <= secs < (secs / 60) * 60 + 60,
{
}

/// A duration below a minute shows its seconds as `{s}s`.
pub proof fn law_duration_label_seconds(secs: int)
    requires
        secs < 60,
    ensures
        duration_label(secs) == int_text(secs) + "s"@,
{
}

/// An idle activity's subtitle is `Inaktiv`, whatever else it holds.
pub proof fn law_subtitle_idle(a: Activity)
    requires
        a.is_idle,
    ensures
        subtitle_of(a) == "Inaktiv"@,
{
}

/// An active activity with a project shows the project, followed by
/// ` · ` and the file when there is one.
pub proof fn law_subtitle_project(a: Activity, p: Seq<char>)
    requires
        !a.is_idle,
        a.context.project matches Some(q) && q@ == p,
    ensures
        subtitle_of(a) == match a.context.file {
            Some(f) => p + " \u{b7} "@ + f@,
            None => p,
        },
{
}

/// An active activity without a project but with a branch `b` shows
/// `Branch: b`, whatever its working directory, title, URL or page title.
pub proof fn law_subtitle_branch(a: Activity, b: Seq<char>)
    requires
        !a.is_idle,
        a.context.project is None,
        a.context.git_branch matches Some(g) && g@ == b,
    ensures
        subtitle_of(a) == "Branch: "@ + b,
{
}

/// Without a project or branch, an active activity shows the first of: a
/// nonempty page title, the URL, a nonempty window title, the app name.
pub proof fn law_subtitle_fallbacks(a: Activity)
    requires
        !a.is_idle,
        a.context.project is None,
        a.context.git_branch is None,
    ensures
        (a.context.page_title matches Some(t) && t@.len() > 0) ==> subtitle_of(a)
            == a.context.page_title->0@,
        !(a.context.page_title matches Some(t) && t@.len() > 0) && a.context.url is Some
            ==> subtitle_of(a) == a.context.url->0@,
        !(a.context.page_title matches Some(t) && t@.len() > 0) && a.context.url is None
            && a.window_title@.len() > 0 ==> subtitle_of(a) == a.window_title@,
        !(a.context.page_title matches Some(t) && t@.len() > 0) && a.context.url is None
            && a.window_title@.len() == 0 ==> subtitle_of(a) == a.app_name@,
{
}

/// The working directory never shows in a subtitle: activities that differ
/// only there get the same subtitle.
pub proof fn law_subtitle_ignores_cwd(a: Activity, b: Activity)
    requires
        a.is_idle == b.is_idle,
        a.app_name == b.app_name,
        a.window_title == b.window_title,
        a.context.url == b.context.url,
        a.context.page_title == b.context.page_title,
        a.context.project == b.context.project,
        a.context.file == b.context.file,
        a.context.git_branch == b.context.git_branch,
    ensures
        subtitle_of(a) == subtitle_of(b),
{
}

/// A browser URL is stored as follows, `t` being the reported text trimmed:
/// nothing when `t` is empty; `t` itself when it starts with `http://` or
/// `https://`; otherwise `https://` + `t` whenever `t` has a dot and no space,
/// whatever other characters (query, fragment, port) it holds; and nothing
/// when it lacks a dot or has a space.
pub proof fn law_normalize_url_cases(url: Seq<char>)
    ensures
        trim(url).len() == 0 ==> normalized_url(url) is None,
        trim(url).len() > 0 && (has_prefix(trim(url), "http://"@) || has_prefix(
            trim(url),
            "https://"@,
        )) ==> normalized_url(url) == Some(trim(url)),
        trim(url).len() > 0 && !has_prefix(trim(url), "http://"@) && !has_prefix(
            trim(url),
            "https://"@,
        ) && trim(url).contains('.') && !trim(url).contains(' ') ==> normalized_url(url)
            == Some("https://"@ + trim(url)),
        !has_prefix(trim(url), "http://"@) && !has_prefix(trim(url), "https://"@) && (!trim(
            url,
        ).contains('.') || trim(url).contains(' ')) ==> normalized_url(url) is None,
{
}

/// A path that holds no space, `(` or `[` runs to the separator after it.
pub proof fn lemma_path_end_at(p: Seq<char>, sep: char, rest: Seq<char>, from: int)
    requires
        0 <= from <= p.len(),
        forall|i: int| 0 <= i < p.len() ==> p[i] != ' ' && p[i] != '(' && p[i] != '[',
        sep == ' ' || sep == '(' || sep == '[',
    ensures
        path_end(p + seq![sep] + rest, from) == p.len(),
    decreases p.len() - from,
{
    let s = p + seq![sep] + rest;
    if from < p.len() {
        assert(s[from] == p[from]);
        lemma_path_end_at(p, sep, rest, from + 1);
    } else {
        assert(s[from] == sep);
    }
}

/// In a title `x:P` followed by a space, `(` or `[` (as in `user@host:P (branch)`),
/// where `x` has no `:` and does not start with a path, and `P` starts with
/// `/` or `~` and holds no whitespace, `(` or `[`, the working directory read
/// is exactly `P`, whatever other characters (such as `-` or `.`) it holds.
pub proof fn law_title_cwd_after_colon(
    x: Seq<char>,
    p: Seq<char>,
    sep: char,
    rest: Seq<char>,
)
    requires
        !x.contains(':'),
        x.len() > 0 ==> x[0] != '/' && x[0] != '~',
        p.len() > 0,
        p[0] == '/' || p[0] == '~',
        forall|i: int| 0 <= i < p.len() ==> !is_ws(#[trigger] p[i]) && p[i] != '(' && p[i] != '[',
        sep == ' ' || sep == '(' || sep == '[',
    ensures
        title_cwd(x + seq![':'] + p + seq![sep] + rest) == Some(p),
{
    let t = x + seq![':'] + p + seq![sep] + rest;
    reveal_strlit(" ");
    assert forall|i: int| 0 <= i < p.len() implies p[i] != ' ' && p[i] != '(' && p[i] != '[' by {
        assert(!is_ws(p[i]));
    }
    // no path prefix on the whole title
    if x.len() == 0 {
        assert(t[0] == ':');
    } else {
        assert(t[0] == x[0]);
    }
    assert(!has_prefix(t, seq!['~', '/'])) by {
        if has_prefix(t, seq!['~', '/']) {
            assert(t.subrange(0, 2)[0] == t[0]);
        }
    }
    assert(!has_prefix(t, seq!['/'])) by {
        if has_prefix(t, seq!['/']) {
            assert(t.subrange(0, 1)[0] == t[0]);
        }
    }
    // the first colon ends `x`
    lemma_find_char(t, ':', 0);
    assert(t[x.len() as int] == ':');
    assert forall|j: int| 0 <= j < x.len() implies t[j] != ':' by {
        assert(t[j] == x[j]);
        if x[j] == ':' {
            assert(x.contains(':'));
        }
    }
    assert(find_char(t, ':', 0) == Some(x.len() as int));
    let tail = t.subrange(x.len() as int + 1, t.len() as int);
    assert(tail =~= p + seq![sep] + rest);
    lemma_path_end_at(p, sep, rest, 0);
    assert(tail.subrange(0, p.len() as int) =~= p);
    lemma_trim_fixpoint(p);
    assert(has_prefix(p, seq!['/']) || has_prefix(p, seq!['~'])) by {
        assert(p.subrange(0, 1) =~= seq![p[0]]);
    }
}

/// A title that starts with `/` or `~/` is taken whole as the working
/// directory; one that does not and has no `:` gives none.
pub proof fn law_title_cwd_whole_or_none(t: Seq<char>)
    ensures
        (t.len() >= 1 && t[0] == '/') || (t.len() >= 2 && t[0] == '~' && t[1] == '/')
            ==> title_cwd(t) == Some(t),
        !((t.len() >= 1 && t[0] == '/') || (t.len() >= 2 && t[0] == '~' && t[1] == '/'))
            && !t.contains(':') ==> title_cwd(t) is None,
{
    if t.len() >= 1 && t[0] == '/' {
        assert(t.subrange(0, 1) =~= seq!['/']);
    } else if t.len() >= 2 && t[0] == '~' && t[1] == '/' {
        assert(t.subrange(0, 2) =~= seq!['~', '/']);
    } else {
        assert(!has_prefix(t, seq!['/'])) by {
            if has_prefix(t, seq!['/']) {
                assert(t.subrange(0, 1)[0] == t[0]);
            }
        }
        assert(!has_prefix(t, seq!['~', '/'])) by {
            if has_prefix(t, seq!['~', '/']) {
                assert(t.subrange(0, 2)[0] == t[0]);
                assert(t.subrange(0, 2)[1] == t[1]);
            }
        }
        lemma_find_char(t, ':', 0);
        if find_char(t, ':', 0) is Some {
            assert(t.contains(':'));
        }
    }
}

} // verus!
