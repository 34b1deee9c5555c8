//! Editing the Windows `hosts` file: adding a redirect entry once, and
//! removing every line that holds it.
use vstd::prelude::*;

use crate::text::{
    chars_of, ends_with, contains, has_substring, has_suffix, join_lines, join_with_newlines,
    line_scan, lines, lines_of, seq_eq, string_of, strip_cr, trim_chars, trimmed, views,
};

verus! {

/// The text appended to `content` so that it holds `line`, or `None` when
/// the trimmed `line` already occurs in it.  A line feed is put first when
/// the content does not end with one, and one after the line.
pub open spec fn entry_addition(content: Seq<char>, line: Seq<char>) -> Option<Seq<char>> {
    if has_substring(content, trimmed(line)) {
        None
    } else {
        let sep: Seq<char> = if has_suffix(content, seq!['\n']) {
            Seq::empty()
        } else {
            seq!['\n']
        };
        Some(sep + line + seq!['\n'])
    }
}

/// The content of the hosts file after the entry has been ensured.
pub open spec fn with_entry(content: Seq<char>, line: Seq<char>) -> Seq<char> {
    match entry_addition(content, line) {
        Some(a) => content + a,
        None => content,
    }
}

/// Whether a line is kept when `line` is removed: its trimmed text differs
/// from the trimmed entry.
pub open spec fn keeps_line(line: Seq<char>) -> spec_fn(Seq<char>) -> bool {
    |l: Seq<char>| trimmed(l) != trimmed(line)
}

/// The lines of `content` that survive removing `line`.
pub open spec fn kept_lines(content: Seq<char>, line: Seq<char>) -> Seq<Seq<char>> {
    lines(content).filter(keeps_line(line))
}

/// `s` with a line feed appended unless it already ends with one.
pub open spec fn newline_terminated(s: Seq<char>) -> Seq<char> {
    if has_suffix(s, seq!['\n']) {
        s
    } else {
        s.push('\n')
    }
}

/// The content of the hosts file after the entry has been removed.
pub open spec fn without_entry(content: Seq<char>, line: Seq<char>) -> Seq<char> {
    newline_terminated(join_lines(kept_lines(content, line)))
}

/// The text to append to the hosts file so that it holds `line`; `None` when
/// nothing needs to be written.
pub fn host_entry_addition(content: &str, line: &str) -> (r: Option<String>)
    ensures
        match entry_addition(content@, line@) {
            Some(a) => r matches Some(s) && s@ == a,
            None => r is None,
        },
{
    let c = chars_of(content);
    let l = chars_of(line);
    let t = trim_chars(l.as_slice());
    if contains(c.as_slice(), t.as_slice()) {
        return None;
    }
    let mut out: Vec<char> = Vec::new();
    let nl = vec!['\n'];
    if !ends_with(c.as_slice(), nl.as_slice()) {
        out.push('\n');
    }
    let ghost sep = out@;
    let n = l.len();
    for i in 0..n
        invariant
            n == l@.len(),
            out@ == sep + l@.take(i as int),
    {
        out.push(l[i]);
        assert(l@.take(i + 1) == l@.take(i as int).push(l@[i as int]));
    }
    assert(l@.take(n as int) == l@);
    out.push('\n');
    assert(nl@ == seq!['\n']);
    Some(string_of(out.as_slice()))
}

/// The hosts file content once `line` has been ensured in it.
pub fn host_content_with_entry(content: &str, line: &str) -> (r: String)
    ensures
        r@ == with_entry(content@, line@),
{
    match host_entry_addition(content, line) {
        Some(a) => {
            let mut r = String::from_str(content);
            r.append(a.as_str());
            r
        },
        None => String::from_str(content),
    }
}

/// The hosts file content once every line whose trimmed text is the trimmed
/// `line` has been removed; the result always ends with a line feed.
pub fn host_content_without_entry(content: &str, line: &str) -> (r: String)
    ensures
        r@ == without_entry(content@, line@),
        r@ == newline_terminated(
            join_lines(lines(content@).filter(|l: Seq<char>| trimmed(l) != trimmed(line@))),
        ),
{
    let c = chars_of(content);
    let l = chars_of(line);
    let t = trim_chars(l.as_slice());
    let all = lines_of(c.as_slice());
    let ghost pred = keeps_line(line@);
    let mut kept: Vec<Vec<char>> = Vec::new();
    let n = all.len();
    for i in 0..n
        invariant
            n == all@.len(),
            views(all@) == lines(c@),
            c@ == content@,
            t@ == trimmed(line@),
            pred == keeps_line(line@),
            views(kept@) == views(all@).take(i as int).filter(pred),
    {
        let x = trim_chars(all[i].as_slice());
        proof {
            reveal(Seq::filter);
            assert(views(all@).take(i + 1).drop_last() == views(all@).take(i as int));
            assert(views(all@).take(i + 1).last() == all@[i as int]@);
        }
        if !seq_eq(x.as_slice(), t.as_slice()) {
            kept.push(all[i].clone());
            assert(views(kept@) =~= views(all@).take(i + 1).filter(pred));
        } else {
            assert(views(kept@) =~= views(all@).take(i + 1).filter(pred));
        }
    }
    assert(views(all@).take(n as int) == views(all@));
    let mut joined = join_with_newlines(&kept);
    let nl = vec!['\n'];
    if !ends_with(joined.as_slice(), nl.as_slice()) {
        joined.push('\n');
    }
    assert(nl@ == seq!['\n']);
    proof {
        lemma_kept_lines_differ(content@, line@);
    }
    string_of(joined.as_slice())
}

/// The lines kept by a removal are those whose trimmed text differs from
/// the trimmed entry.
proof fn lemma_kept_lines_differ(content: Seq<char>, line: Seq<char>)
    ensures
        kept_lines(content, line) == lines(content).filter(|l: Seq<char>| trimmed(l) != trimmed(line)),
{
    assert(keeps_line(line) =~= (|l: Seq<char>| trimmed(l) != trimmed(line)));
}

/// Whether the output of `ping` shows that the name resolved to the local
/// machine.
pub fn ping_shows_local(output: &str) -> (r: bool)
    ensures
        r == has_substring(output@, "127.0.0.1"@),
{
    let o = chars_of(output);
    let needle = chars_of("127.0.0.1");
    contains(o.as_slice(), needle.as_slice())
}

// ---------------------------------------------------------------------------
// Laws
// ---------------------------------------------------------------------------

proof fn lemma_trimmed_is_substring(s: Seq<char>)
    ensures
        has_substring(s, trimmed(s)),
{
    let p = crate::text::ws_pred();
    let lo = crate::text::keep_from(s, p, 0);
    crate::text::lemma_keep_from_bounds(s, p, 0);
    crate::text::lemma_keep_until_bounds(s, p, lo, s.len() as int);
    let hi = crate::text::keep_until(s, p, lo, s.len() as int);
    assert(s.subrange(lo, lo + trimmed(s).len()) == trimmed(s));
    assert(crate::text::occurs_at(s, trimmed(s), lo));
}

proof fn lemma_substring_extends(a: Seq<char>, b: Seq<char>, c: Seq<char>, n: Seq<char>)
    requires
        has_substring(b, n),
    ensures
        has_substring(a + b + c, n),
{
    let i = choose|i: int| crate::text::occurs_at(b, n, i);
    assert((a + b + c).subrange(a.len() + i, a.len() + i + n.len()) =~= b.subrange(i, i + n.len()));
    assert(crate::text::occurs_at(a + b + c, n, a.len() + i));
}

/// Once an entry has been ensured, the hosts content holds the trimmed entry.
pub proof fn law_ensured_entry_present(content: Seq<char>, line: Seq<char>)
    ensures
        has_substring(with_entry(content, line), trimmed(line)),
{
    if !has_substring(content, trimmed(line)) {
        let a = entry_addition(content, line)->0;
        let sep: Seq<char> = if has_suffix(content, seq!['\n']) {
            Seq::empty()
        } else {
            seq!['\n']
        };
        lemma_trimmed_is_substring(line);
        lemma_substring_extends(content + sep, line, seq!['\n'], trimmed(line));
        assert(content + a =~= content + sep + line + seq!['\n']);
    }
}

/// Ensuring an entry keeps the existing content as a prefix: nothing that
/// was there is changed or removed.
pub proof fn law_ensure_only_appends(content: Seq<char>, line: Seq<char>)
    ensures
        with_entry(content, line).take(content.len() as int) == content,
{
    match entry_addition(content, line) {
        Some(a) => {
            assert((content + a).take(content.len() as int) =~= content);
        },
        None => {
            assert(content.take(content.len() as int) =~= content);
        },
    }
}

/// Ensuring an entry twice writes it once.
pub proof fn law_ensure_idempotent(content: Seq<char>, line: Seq<char>)
    ensures
        with_entry(with_entry(content, line), line) == with_entry(content, line),
{
    law_ensured_entry_present(content, line);
}

proof fn lemma_scan_no_newline(s: Seq<char>)
    ensures
        !line_scan(s).1.contains('\n'),
        forall|i: int|
            0 <= i < line_scan(s).0.len() ==> !(#[trigger] line_scan(s).0[i]).contains('\n'),
    decreases s.len(),
{
    if s.len() > 0 {
        lemma_scan_no_newline(s.drop_last());
        let prev = line_scan(s.drop_last());
        if s.last() == '\n' {
            assert forall|i: int|
                0 <= i < line_scan(s).0.len() implies !(#[trigger] line_scan(s).0[i]).contains(
                '\n',
            ) by {
                if i == prev.0.len() {
                    if strip_cr(prev.1).contains('\n') {
                        let k = choose|k: int|
                            0 <= k < strip_cr(prev.1).len() && strip_cr(prev.1)[k] == '\n';
                        assert(prev.1[k] == '\n');
                    }
                }
            }
        } else {
            if prev.1.push(s.last()).contains('\n') {
                let k = choose|k: int|
                    0 <= k < prev.1.push(s.last()).len() && prev.1.push(s.last())[k] == '\n';
                if k < prev.1.len() {
                    assert(prev.1[k] == '\n');
                }
            }
        }
    }
}

proof fn lemma_lines_no_newline(s: Seq<char>)
    ensures
        forall|i: int| 0 <= i < lines(s).len() ==> !(#[trigger] lines(s)[i]).contains('\n'),
{
    lemma_scan_no_newline(s);
}

proof fn lemma_filter_keeps_property(
    s: Seq<Seq<char>>,
    p: spec_fn(Seq<char>) -> bool,
    q: spec_fn(Seq<char>) -> bool,
)
    requires
        forall|i: int| 0 <= i < s.len() ==> q(#[trigger] s[i]),
    ensures
        forall|i: int| 0 <= i < s.filter(p).len() ==> q(#[trigger] s.filter(p)[i]),
    decreases s.len(),
{
    reveal(Seq::filter);
    if s.len() > 0 {
        lemma_filter_keeps_property(s.drop_last(), p, q);
        assert forall|i: int| 0 <= i < s.filter(p).len() implies q(#[trigger] s.filter(p)[i]) by {
            if i < s.drop_last().filter(p).len() {
                assert(s.filter(p)[i] == s.drop_last().filter(p)[i]);
            } else {
                assert(s.filter(p)[i] == s.last());
            }
        }
    }
}

proof fn lemma_scan_append_no_newline(x: Seq<char>, y: Seq<char>)
    requires
        !y.contains('\n'),
    ensures
        line_scan(x + y) == (line_scan(x).0, line_scan(x).1 + y),
    decreases y.len(),
{
    if y.len() == 0 {
        assert(x + y =~= x);
        assert(line_scan(x).1 + y =~= line_scan(x).1);
    } else {
        let y0 = y.drop_last();
        assert(!y0.contains('\n')) by {
            if y0.contains('\n') {
                let k = choose|k: int| 0 <= k < y0.len() && y0[k] == '\n';
                assert(y[k] == '\n');
            }
        }
        lemma_scan_append_no_newline(x, y0);
        assert((x + y).drop_last() =~= x + y0);
        assert((x + y).last() == y.last());
        assert(y.last() != '\n') by {
            assert(y[y.len() - 1] == y.last());
        }
        assert(line_scan(x).1 + y0.push(y.last()) =~= line_scan(x).1 + y);
        assert((line_scan(x).1 + y0).push(y.last()) =~= line_scan(x).1 + y);
    }
}

proof fn lemma_scan_join(ks: Seq<Seq<char>>)
    requires
        ks.len() >= 1,
        forall|i: int| 0 <= i < ks.len() ==> !(#[trigger] ks[i]).contains('\n'),
    ensures
        line_scan(join_lines(ks)) == (ks.drop_last().map_values(|l: Seq<char>| strip_cr(l)), ks.last()),
    decreases ks.len(),
{
    if ks.len() == 1 {
        lemma_scan_append_no_newline(Seq::empty(), ks[0]);
        assert(Seq::<char>::empty() + ks[0] =~= ks[0]);
        assert(line_scan(Seq::<char>::empty()).1 + ks[0] =~= ks[0]);
        assert(ks.drop_last().map_values(|l: Seq<char>| strip_cr(l)) =~= Seq::empty());
    } else {
        let dl = ks.drop_last();
        assert forall|i: int| 0 <= i < dl.len() implies !(#[trigger] dl[i]).contains('\n') by {
            assert(dl[i] == ks[i]);
        }
        lemma_scan_join(dl);
        let x = join_lines(dl) + seq!['\n'];
        assert(x.drop_last() =~= join_lines(dl));
        assert(x.last() == '\n');
        assert(ks[ks.len() - 1] == ks.last());
        lemma_scan_append_no_newline(x, ks.last());
        assert(line_scan(x).1 + ks.last() =~= ks.last());
        assert(dl.drop_last().map_values(|l: Seq<char>| strip_cr(l)).push(strip_cr(dl.last()))
            =~= ks.drop_last().map_values(|l: Seq<char>| strip_cr(l)));
    }
}

proof fn lemma_trimmed_strip_cr(l: Seq<char>)
    ensures
        trimmed(strip_cr(l)) == trimmed(l),
{
    let p = crate::text::ws_pred();
    if l.len() > 0 && l.last() == '\r' {
        let m = l.drop_last();
        assert(p(l.last()));
        lemma_keep_from_prefix(l, m, 0);
        crate::text::lemma_keep_from_bounds(m, p, 0);
        crate::text::lemma_keep_from_bounds(l, p, 0);
        let lo_m = crate::text::keep_from(m, p, 0);
        let lo_l = crate::text::keep_from(l, p, 0);
        if lo_l == l.len() {
            assert(crate::text::keep_until(l, p, lo_l, l.len() as int) == lo_l);
            assert(trimmed(l) =~= Seq::<char>::empty());
            if lo_m < m.len() {
                crate::text::lemma_keep_from_stops(m, p, 0);
                crate::text::lemma_keep_from_stops(l, p, 0);
                assert(false);
            }
            assert(crate::text::keep_until(m, p, lo_m, m.len() as int) == lo_m);
            assert(trimmed(m) =~= Seq::<char>::empty());
        } else {
            crate::text::lemma_keep_from_stops(l, p, 0);
            assert(lo_l < m.len());
            assert(lo_m == lo_l);
            let lo = lo_l;
            lemma_keep_until_prefix(l, m, lo, m.len() as int);
            crate::text::lemma_keep_until_bounds(m, p, lo, m.len() as int);
            let e = crate::text::keep_until(m, p, lo, m.len() as int);
            assert(crate::text::keep_until(l, p, lo, l.len() as int) == e);
            assert(l.subrange(lo, e) =~= m.subrange(lo, e));
        }
    }
}

proof fn lemma_keep_from_prefix(l: Seq<char>, m: Seq<char>, i: int)
    requires
        l.len() == m.len() + 1,
        m == l.drop_last(),
        crate::text::ws_pred()(l.last()),
        0 <= i <= m.len(),
    ensures
        crate::text::keep_from(l, crate::text::ws_pred(), i) == crate::text::keep_from(
            m,
            crate::text::ws_pred(),
            i,
        ) || (crate::text::keep_from(m, crate::text::ws_pred(), i) == m.len()
            && crate::text::keep_from(l, crate::text::ws_pred(), i) == l.len()),
    decreases m.len() - i,
{
    if i < m.len() {
        assert(l[i] == m[i]);
        lemma_keep_from_prefix(l, m, i + 1);
    } else {
        assert(l[i] == l.last());
        assert(crate::text::keep_from(l, crate::text::ws_pred(), i + 1) == l.len());
    }
}

proof fn lemma_keep_until_prefix(l: Seq<char>, m: Seq<char>, lo: int, j: int)
    requires
        l.len() == m.len() + 1,
        m == l.drop_last(),
        0 <= lo <= j <= m.len(),
    ensures
        crate::text::keep_until(l, crate::text::ws_pred(), lo, j) == crate::text::keep_until(
            m,
            crate::text::ws_pred(),
            lo,
            j,
        ),
    decreases j - lo,
{
    if j > lo {
        assert(l[j - 1] == m[j - 1]);
        lemma_keep_until_prefix(l, m, lo, j - 1);
    }
}

/// After an entry has been removed, no line of the hosts content has the
/// trimmed text of the entry (for an entry that is not blank).
pub proof fn law_removed_entry_absent(content: Seq<char>, line: Seq<char>)
    requires
        trimmed(line).len() > 0,
    ensures
        forall|i: int|
            0 <= i < lines(without_entry(content, line)).len() ==> trimmed(
                #[trigger] lines(without_entry(content, line))[i],
            ) != trimmed(line),
{
    let ks = kept_lines(content, line);
    let p = keeps_line(line);
    lemma_lines_no_newline(content);
    lemma_filter_keeps_property(lines(content), p, |l: Seq<char>| !l.contains('\n'));
    let r = without_entry(content, line);
    assert(trimmed(Seq::<char>::empty()) =~= Seq::<char>::empty());
    if ks.len() == 0 {
        assert(join_lines(ks) =~= Seq::<char>::empty());
        assert(r =~= seq!['\n']);
        assert(r.drop_last() =~= Seq::<char>::empty());
        let e = line_scan(Seq::<char>::empty());
        assert(e.0 =~= Seq::<Seq<char>>::empty());
        assert(e.1 =~= Seq::<char>::empty());
        assert(lines(r) =~= seq![strip_cr(Seq::<char>::empty())]);
        assert(strip_cr(Seq::<char>::empty()) =~= Seq::<char>::empty());
    } else {
        assert forall|i: int| 0 <= i < ks.len() implies !(#[trigger] ks[i]).contains('\n') by {}
        lemma_scan_join(ks);
        let j = join_lines(ks);
        let mapped = ks.drop_last().map_values(|l: Seq<char>| strip_cr(l));
        assert forall|i: int| 0 <= i < ks.len() implies trimmed(
            strip_cr(#[trigger] ks[i]),
        ) != trimmed(line) by {
            lemma_trimmed_strip_cr(ks[i]);
            lines(content).lemma_filter_pred(p, i);
            assert(p(ks[i]));
        }
        if has_suffix(j, seq!['\n']) {
            assert(r == j);
            if ks.last().len() > 0 {
                assert(j.skip(j.len() - 1)[0] == j[j.len() - 1]);
                assert(j[j.len() - 1] == '\n');
                if ks.len() > 1 {
                    assert(j == join_lines(ks.drop_last()) + seq!['\n'] + ks.last());
                }
                assert(j[j.len() - 1] == ks.last()[ks.last().len() - 1]);
                assert(ks.last()[ks.last().len() - 1] == '\n');
                assert(ks[ks.len() - 1] == ks.last());
                assert(ks.last().contains('\n'));
            }
            assert(lines(r) == mapped);
            assert forall|i: int| 0 <= i < lines(r).len() implies trimmed(
                #[trigger] lines(r)[i],
            ) != trimmed(line) by {
                assert(lines(r)[i] == strip_cr(ks[i]));
            }
        } else {
            assert(r == j.push('\n'));
            assert(r.drop_last() =~= j);
            assert(lines(r) == mapped.push(strip_cr(ks.last())));
            assert forall|i: int| 0 <= i < lines(r).len() implies trimmed(
                #[trigger] lines(r)[i],
            ) != trimmed(line) by {
                if i < mapped.len() {
                    assert(lines(r)[i] == strip_cr(ks[i]));
                } else {
                    assert(ks[ks.len() - 1] == ks.last());
                }
            }
        }
    }
}


/// Removing an entry keeps every other line: read back as lines, the result
/// is exactly the lines of the content whose trimmed text differs from the
/// trimmed entry, in their order (each without a stray trailing carriage
/// return).  When no line is kept the result is a lone line feed.  Stated
/// where the last kept line is not empty: an empty last line disappears when
/// the lines are read back.
pub proof fn law_removal_keeps_other_lines(content: Seq<char>, line: Seq<char>)
    ensures
        lines(content).filter(|l: Seq<char>| trimmed(l) != trimmed(line)).len() == 0 ==> without_entry(
            content,
            line,
        ) == seq!['\n'],
        lines(content).filter(|l: Seq<char>| trimmed(l) != trimmed(line)).len() > 0 && lines(
            content,
        ).filter(|l: Seq<char>| trimmed(l) != trimmed(line)).last().len() > 0 ==> lines(
            without_entry(content, line),
        ) == lines(content).filter(|l: Seq<char>| trimmed(l) != trimmed(line)).map_values(
            |l: Seq<char>| strip_cr(l),
        ),
{
    lemma_kept_lines_differ(content, line);
    let ks = kept_lines(content, line);
    let p = keeps_line(line);
    let r = without_entry(content, line);
    if ks.len() == 0 {
        assert(join_lines(ks) =~= Seq::<char>::empty());
        assert(r =~= seq!['\n']);
    } else if ks.last().len() > 0 {
        lemma_lines_no_newline(content);
        lemma_filter_keeps_property(lines(content), p, |l: Seq<char>| !l.contains('\n'));
        assert forall|i: int| 0 <= i < ks.len() implies !(#[trigger] ks[i]).contains('\n') by {}
        lemma_scan_join(ks);
        let j = join_lines(ks);
        let mapped = ks.drop_last().map_values(|l: Seq<char>| strip_cr(l));
        assert(ks[ks.len() - 1] == ks.last());
        assert(!has_suffix(j, seq!['\n'])) by {
            if has_suffix(j, seq!['\n']) {
                assert(j.skip(j.len() - 1)[0] == j[j.len() - 1]);
                if ks.len() > 1 {
                    assert(j == join_lines(ks.drop_last()) + seq!['\n'] + ks.last());
                }
                assert(j[j.len() - 1] == ks.last()[ks.last().len() - 1]);
                assert(ks.last().contains('\n'));
            }
        }
        assert(r == j.push('\n'));
        assert(r.drop_last() =~= j);
        assert(lines(r) == mapped.push(strip_cr(ks.last())));
        assert(lines(r) =~= ks.map_values(|l: Seq<char>| strip_cr(l)));
    }
}

} // verus!
