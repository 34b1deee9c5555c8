//! Character-level text operations used throughout the library.
//!
//! Text is modelled as `Seq<char>` (the view of `str` and `String`).  The
//! executable functions here work on character vectors and are proved
//! against the spec functions of this module.
use vstd::prelude::*;

verus! {

// ---------------------------------------------------------------------------
// Character classes and case mapping, as std defines them
// ---------------------------------------------------------------------------

/// Whether `c` has the Unicode `White_Space` property, as listed in the
/// Unicode Character Database (PropList.txt): U+0009..U+000D, U+0020,
/// U+0085, U+00A0, U+1680, U+2000..U+200A, U+2028, U+2029, U+202F, U+205F
/// and U+3000.
pub open spec fn white_space(c: char) -> bool {
    let u = c as u32;
    (0x9 <= u && u <= 0xD) || u == 0x20 || u == 0x85 || u == 0xA0 || u == 0x1680 || (0x2000 <= u
        && u <= 0x200A) || u == 0x2028 || u == 0x2029 || u == 0x202F || u == 0x205F || u == 0x3000
}

/// Whether a character outside ASCII is alphabetic or numeric in the
/// Unicode sense (what `char::is_alphanumeric` returns for it).
pub uninterp spec fn non_ascii_alphanumeric(c: char) -> bool;

/// ASCII letters and digits.
pub open spec fn ascii_alphanumeric(c: char) -> bool {
    ('a' <= c && c <= 'z') || ('A' <= c && c <= 'Z') || ('0' <= c && c <= '9')
}

/// What `char::is_alphanumeric` returns: within ASCII exactly the letters
/// and digits; never for a `White_Space` character (those are spaces,
/// separators and controls, neither alphabetic nor numeric in Unicode).
pub open spec fn alphanumeric(c: char) -> bool {
    if (c as u32) < 128 {
        ascii_alphanumeric(c)
    } else if white_space(c) {
        false
    } else {
        non_ascii_alphanumeric(c)
    }
}

/// The Unicode lowercase mapping of a string that holds a character outside
/// ASCII (what `str::to_lowercase` returns for it).
pub uninterp spec fn non_ascii_lowercase(s: Seq<char>) -> Seq<char>;

/// ASCII lowercase mapping of one character.
pub open spec fn ascii_lower(c: char) -> char {
    if 'A' <= c && c <= 'Z' {
        ((c as u32) + 32) as char
    } else {
        c
    }
}

pub open spec fn all_ascii(s: Seq<char>) -> bool {
    forall|i: int| 0 <= i < s.len() ==> (#[trigger] s[i] as u32) < 128
}

/// What `str::to_lowercase` returns: on an all-ASCII string, `A`..=`Z`
/// mapped to `a`..=`z` and the rest kept.
pub open spec fn lowercase(s: Seq<char>) -> Seq<char> {
    if all_ascii(s) {
        s.map_values(|c: char| ascii_lower(c))
    } else {
        non_ascii_lowercase(s)
    }
}

/// Whether `c` has the Unicode `White_Space` property (what
/// `char::is_whitespace` tests).
pub(crate) fn is_whitespace(c: char) -> (r: bool)
    ensures
        r == white_space(c),
{
    let u = c as u32;
    (0x9 <= u && u <= 0xD) || u == 0x20 || u == 0x85 || u == 0xA0 || u == 0x1680 || (0x2000 <= u
        && u <= 0x200A) || u == 0x2028 || u == 0x2029 || u == 0x202F || u == 0x205F || u == 0x3000
}

/// Trusted: calls `char::is_alphanumeric`.  Within ASCII it holds exactly
/// for letters and digits; it never holds for a `White_Space` character;
/// beyond that the result is the name `non_ascii_alphanumeric`.
#[verifier::external_body]
pub(crate) fn is_alphanumeric(c: char) -> (r: bool)
    ensures
        r == alphanumeric(c),
        (c as u32) >= 128 && !white_space(c) ==> r == non_ascii_alphanumeric(c),
{
    c.is_alphanumeric()
}

/// Trusted: calls `str::to_lowercase`.  On an all-ASCII string it maps
/// `A`..=`Z` to `a`..=`z`; otherwise the result is the name
/// `non_ascii_lowercase`.
#[verifier::external_body]
pub(crate) fn to_lowercase(s: &str) -> (r: String)
    ensures
        r@ == lowercase(s@),
        !all_ascii(s@) ==> r@ == non_ascii_lowercase(s@),
{
    s.to_lowercase()
}

/// Trusted: calls `String::push`, which appends one char at the end.
#[verifier::external_body]
pub(crate) fn push_char(s: &mut String, c: char)
    ensures
        final(s)@ == old(s)@.push(c),
{
    s.push(c);
}

// ---------------------------------------------------------------------------
// Conversions between strings and character vectors
// ---------------------------------------------------------------------------

/// The characters of a string slice, as a vector.
pub fn chars_of(s: &str) -> (v: Vec<char>)
    ensures
        v@ == s@,
{
    let mut v: Vec<char> = Vec::new();
    for c in it: s.chars()
        invariant
            v@ == it.seq().take(it.index() as int),
    {
        v.push(c);
    }
    v
}

/// Builds a `String` from a sequence of characters.
pub fn string_of(v: &[char]) -> (s: String)
    ensures
        s@ == v@,
{
    let mut s = String::new();
    let n = v.len();
    for i in 0..n
        invariant
            n == v@.len(),
            s@ == v@.take(i as int),
    {
        push_char(&mut s, v[i]);
        assert(v@.take(i + 1) == v@.take(i as int).push(v@[i as int]));
    }
    assert(v@.take(n as int) == v@);
    s
}

/// A `String` holding a copy of `s`.
pub fn owned(s: &str) -> (r: String)
    ensures
        r@ == s@,
{
    String::from_str(s)
}

/// The concatenation of two strings.
pub fn concat(a: &str, b: &str) -> (r: String)
    ensures
        r@ == a@ + b@,
{
    let mut r = String::from_str(a);
    r.append(b);
    r
}

/// The concatenation of three strings.
pub fn concat3(a: &str, b: &str, c: &str) -> (r: String)
    ensures
        r@ == a@ + b@ + c@,
{
    let mut r = String::from_str(a);
    r.append(b);
    r.append(c);
    r
}

/// Whether two strings hold the same characters.
pub fn same_text(a: &str, b: &str) -> (r: bool)
    ensures
        r == (a@ == b@),
{
    let x = chars_of(a);
    let y = chars_of(b);
    seq_eq(x.as_slice(), y.as_slice())
}

/// Whether two character slices are equal.
pub fn seq_eq(a: &[char], b: &[char]) -> (r: bool)
    ensures
        r == (a@ == b@),
{
    if a.len() != b.len() {
        return false;
    }
    let n = a.len();
    for i in 0..n
        invariant
            n == a@.len(),
            n == b@.len(),
            forall|k: int| 0 <= k < i ==> a@[k] == b@[k],
    {
        if a[i] != b[i] {
            return false;
        }
    }
    assert(a@ =~= b@);
    true
}

// ---------------------------------------------------------------------------
// Prefixes, suffixes, substrings
// ---------------------------------------------------------------------------

pub open spec fn has_prefix(s: Seq<char>, p: Seq<char>) -> bool {
    p.len() <= s.len() && s.take(p.len() as int) == p
}

pub open spec fn has_suffix(s: Seq<char>, p: Seq<char>) -> bool {
    p.len() <= s.len() && s.skip(s.len() - p.len()) == p
}

/// `n` occurs in `h` starting at index `i`.
pub open spec fn occurs_at(h: Seq<char>, n: Seq<char>, i: int) -> bool {
    0 <= i && i + n.len() <= h.len() && h.subrange(i, i + n.len()) == n
}

/// `n` is a substring of `h` (what `str::contains` with a string pattern tests).
pub open spec fn has_substring(h: Seq<char>, n: Seq<char>) -> bool {
    exists|i: int| occurs_at(h, n, i)
}

/// Whether `s` starts with `p`.
pub fn starts_with(s: &[char], p: &[char]) -> (r: bool)
    ensures
        r == has_prefix(s@, p@),
{
    if p.len() > s.len() {
        return false;
    }
    let n = p.len();
    for i in 0..n
        invariant
            n == p@.len(),
            n <= s@.len(),
            forall|k: int| 0 <= k < i ==> s@[k] == p@[k],
    {
        if s[i] != p[i] {
            assert(s@.take(n as int)[i as int] != p@[i as int]);
            return false;
        }
    }
    assert(s@.take(n as int) =~= p@);
    true
}

/// Whether `s` ends with `p`.
pub fn ends_with(s: &[char], p: &[char]) -> (r: bool)
    ensures
        r == has_suffix(s@, p@),
{
    if p.len() > s.len() {
        return false;
    }
    let n = p.len();
    let off = s.len() - n;
    for i in 0..n
        invariant
            n == p@.len(),
            off + n == s@.len(),
            off + n == s.len(),
            forall|k: int| 0 <= k < i ==> s@[off + k] == p@[k],
    {
        if s[off + i] != p[i] {
            assert(s@.skip(off as int)[i as int] != p@[i as int]);
            return false;
        }
    }
    assert(s@.skip(off as int) =~= p@);
    true
}

/// Whether `n` occurs in `h` at index `i`.
pub fn matches_at(h: &[char], n: &[char], i: usize) -> (r: bool)
    ensures
        r == occurs_at(h@, n@, i as int),
{
    if i > h.len() || n.len() > h.len() - i {
        return false;
    }
    let m = n.len();
    for k in 0..m
        invariant
            m == n@.len(),
            i + m <= h@.len(),
            h@.len() == h.len(),
            forall|j: int| 0 <= j < k ==> h@[i + j] == n@[j],
    {
        if h[i + k] != n[k] {
            assert(h@.subrange(i as int, i + m)[k as int] != n@[k as int]);
            return false;
        }
    }
    assert(h@.subrange(i as int, i + m) =~= n@);
    true
}

/// The first index at which `n` occurs in `h`, if any.
pub fn find(h: &[char], n: &[char]) -> (r: Option<usize>)
    ensures
        match r {
            Some(i) => occurs_at(h@, n@, i as int) && forall|j: int|
                0 <= j < i ==> !occurs_at(h@, n@, j),
            None => !has_substring(h@, n@),
        },
{
    if n.len() > h.len() {
        return None;
    }
    let last = h.len() - n.len();
    let mut i: usize = 0;
    loop
        invariant
            last + n@.len() == h@.len(),
            i <= last,
            forall|j: int| 0 <= j < i ==> !occurs_at(h@, n@, j),
        ensures
            forall|j: int| 0 <= j <= last ==> !occurs_at(h@, n@, j),
        decreases last - i,
    {
        if matches_at(h, n, i) {
            return Some(i);
        }
        if i >= last {
            break;
        }
        i = i + 1;
    }
    assert forall|j: int| !occurs_at(h@, n@, j) by {
        if 0 <= j && j <= last {
        }
    }
    None
}

/// Whether `n` is a substring of `h`.
pub fn contains(h: &[char], n: &[char]) -> (r: bool)
    ensures
        r == has_substring(h@, n@),
{
    match find(h, n) {
        Some(_) => true,
        None => false,
    }
}

/// Whether `h` contains the character `c`.
pub fn contains_char(h: &[char], c: char) -> (r: bool)
    ensures
        r == h@.contains(c),
{
    let n = h.len();
    for i in 0..n
        invariant
            n == h@.len(),
            forall|k: int| 0 <= k < i ==> h@[k] != c,
    {
        if h[i] == c {
            return true;
        }
    }
    false
}

// ---------------------------------------------------------------------------
// Trimming
// ---------------------------------------------------------------------------

/// The first index at or after `i` whose character is not stripped by `p`.
pub open spec fn keep_from(s: Seq<char>, p: spec_fn(char) -> bool, i: int) -> int
    decreases s.len() - i,
{
    if i < 0 || i >= s.len() {
        s.len() as int
    } else if !p(s[i]) {
        i
    } else {
        keep_from(s, p, i + 1)
    }
}

/// The end (exclusive) of the kept part, scanning down from `j` to `lo`.
pub open spec fn keep_until(s: Seq<char>, p: spec_fn(char) -> bool, lo: int, j: int) -> int
    decreases j - lo,
{
    if j <= lo {
        lo
    } else if !p(s[j - 1]) {
        j
    } else {
        keep_until(s, p, lo, j - 1)
    }
}

/// `s` with every leading and trailing character satisfying `p` removed.
pub open spec fn strip(s: Seq<char>, p: spec_fn(char) -> bool) -> Seq<char> {
    let lo = keep_from(s, p, 0);
    s.subrange(lo, keep_until(s, p, lo, s.len() as int))
}

/// `s` without leading and trailing whitespace (what `str::trim` returns).
pub open spec fn trimmed(s: Seq<char>) -> Seq<char> {
    strip(s, ws_pred())
}

/// The predicate stripped by `trimmed`.
pub open spec fn ws_pred() -> spec_fn(char) -> bool {
    |c: char| white_space(c)
}

/// The predicate stripped by `unquoted`.
pub open spec fn quote_pred() -> spec_fn(char) -> bool {
    |c: char| c == '"'
}

/// `s` without leading and trailing double quotes (what
/// `str::trim_matches('"')` returns).
pub open spec fn unquoted(s: Seq<char>) -> Seq<char> {
    strip(s, quote_pred())
}

pub proof fn lemma_keep_from_bounds(s: Seq<char>, p: spec_fn(char) -> bool, i: int)
    requires
        0 <= i <= s.len(),
    ensures
        i <= keep_from(s, p, i) <= s.len(),
    decreases s.len() - i,
{
    if i < s.len() && p(s[i]) {
        lemma_keep_from_bounds(s, p, i + 1);
    }
}

pub proof fn lemma_keep_until_bounds(s: Seq<char>, p: spec_fn(char) -> bool, lo: int, j: int)
    requires
        lo <= j,
    ensures
        lo <= keep_until(s, p, lo, j) <= j,
    decreases j - lo,
{
    if j > lo && p(s[j - 1]) {
        lemma_keep_until_bounds(s, p, lo, j - 1);
    }
}


pub proof fn lemma_keep_from_stops(s: Seq<char>, p: spec_fn(char) -> bool, i: int)
    requires
        0 <= i <= s.len(),
    ensures
        keep_from(s, p, i) < s.len() ==> !p(s[keep_from(s, p, i)]),
    decreases s.len() - i,
{
    if i < s.len() && p(s[i]) {
        lemma_keep_from_stops(s, p, i + 1);
    }
}

pub proof fn lemma_keep_until_stops(s: Seq<char>, p: spec_fn(char) -> bool, lo: int, j: int)
    requires
        0 <= lo <= j <= s.len(),
    ensures
        keep_until(s, p, lo, j) > lo ==> !p(s[keep_until(s, p, lo, j) - 1]),
    decreases j - lo,
{
    if j > lo && p(s[j - 1]) {
        lemma_keep_until_stops(s, p, lo, j - 1);
    }
}

/// Stripping is idempotent.
pub proof fn lemma_strip_idempotent(s: Seq<char>, p: spec_fn(char) -> bool)
    ensures
        strip(strip(s, p), p) == strip(s, p),
{
    let lo = keep_from(s, p, 0);
    lemma_keep_from_bounds(s, p, 0);
    lemma_keep_until_bounds(s, p, lo, s.len() as int);
    let hi = keep_until(s, p, lo, s.len() as int);
    let t = s.subrange(lo, hi);
    lemma_keep_from_stops(s, p, 0);
    lemma_keep_until_stops(s, p, lo, s.len() as int);
    if t.len() == 0 {
        assert(strip(t, p) =~= t);
    } else {
        assert(t[0] == s[lo]);
        assert(keep_from(t, p, 0) == 0);
        assert(t[t.len() - 1] == s[hi - 1]);
        assert(keep_until(t, p, 0, t.len() as int) == t.len());
        assert(strip(t, p) =~= t);
    }
}

pub proof fn lemma_unquoted_idempotent(s: Seq<char>)
    ensures
        unquoted(unquoted(s)) == unquoted(s),
{
    lemma_strip_idempotent(s, quote_pred());
}

pub proof fn lemma_trimmed_idempotent(s: Seq<char>)
    ensures
        trimmed(trimmed(s)) == trimmed(s),
{
    lemma_strip_idempotent(s, ws_pred());
}

/// Removes leading and trailing whitespace.
pub fn trim_chars(s: &[char]) -> (r: Vec<char>)
    ensures
        r@ == trimmed(s@),
{
    let ghost p = ws_pred();
    let n = s.len();
    let mut i: usize = 0;
    while i < n && is_whitespace(s[i])
        invariant
            n == s@.len(),
            i <= n,
            p == ws_pred(),
            keep_from(s@, p, i as int) == keep_from(s@, p, 0),
        decreases n - i,
    {
        i = i + 1;
    }
    let mut j: usize = n;
    while j > i && is_whitespace(s[j - 1])
        invariant
            n == s@.len(),
            i <= j <= n,
            p == ws_pred(),
            keep_from(s@, p, 0) == i,
            keep_until(s@, p, i as int, j as int) == keep_until(s@, p, i as int, n as int),
        decreases j,
    {
        j = j - 1;
    }
    let mut r: Vec<char> = Vec::new();
    for k in i..j
        invariant
            i <= j <= n,
            n == s@.len(),
            r@ == s@.subrange(i as int, k as int),
    {
        r.push(s[k]);
        assert(s@.subrange(i as int, k + 1) == s@.subrange(i as int, k as int).push(s@[k as int]));
    }
    r
}

/// Removes leading and trailing double quotes.
pub fn unquote_chars(s: &[char]) -> (r: Vec<char>)
    ensures
        r@ == unquoted(s@),
{
    let ghost p = quote_pred();
    let n = s.len();
    let mut i: usize = 0;
    while i < n && s[i] == '"'
        invariant
            n == s@.len(),
            i <= n,
            p == quote_pred(),
            keep_from(s@, p, i as int) == keep_from(s@, p, 0),
        decreases n - i,
    {
        i = i + 1;
    }
    let mut j: usize = n;
    while j > i && s[j - 1] == '"'
        invariant
            n == s@.len(),
            i <= j <= n,
            p == quote_pred(),
            keep_from(s@, p, 0) == i,
            keep_until(s@, p, i as int, j as int) == keep_until(s@, p, i as int, n as int),
        decreases j,
    {
        j = j - 1;
    }
    let mut r: Vec<char> = Vec::new();
    for k in i..j
        invariant
            i <= j <= n,
            n == s@.len(),
            r@ == s@.subrange(i as int, k as int),
    {
        r.push(s[k]);
        assert(s@.subrange(i as int, k + 1) == s@.subrange(i as int, k as int).push(s@[k as int]));
    }
    r
}

/// `str::trim`, on a string slice.
pub fn trim(s: &str) -> (r: String)
    ensures
        r@ == trimmed(s@),
{
    let v = chars_of(s);
    let t = trim_chars(v.as_slice());
    string_of(t.as_slice())
}

/// `str::trim_matches('"')`, on a string slice.
pub fn unquote(s: &str) -> (r: String)
    ensures
        r@ == unquoted(s@),
{
    let v = chars_of(s);
    let t = unquote_chars(v.as_slice());
    string_of(t.as_slice())
}

// ---------------------------------------------------------------------------
// Lines
// ---------------------------------------------------------------------------

/// The character views of a sequence of character vectors.
pub open spec fn views(v: Seq<Vec<char>>) -> Seq<Seq<char>> {
    v.map_values(|x: Vec<char>| x@)
}

/// A line without one trailing carriage return.
pub open spec fn strip_cr(l: Seq<char>) -> Seq<char> {
    if l.len() > 0 && l.last() == '\r' {
        l.drop_last()
    } else {
        l
    }
}

/// Scans `s` left to right: the lines completed by a line feed so far, and
/// the characters of the line still open.
pub open spec fn line_scan(s: Seq<char>) -> (Seq<Seq<char>>, Seq<char>)
    decreases s.len(),
{
    if s.len() == 0 {
        (Seq::empty(), Seq::empty())
    } else {
        let prev = line_scan(s.drop_last());
        if s.last() == '\n' {
            (prev.0.push(strip_cr(prev.1)), Seq::empty())
        } else {
            (prev.0, prev.1.push(s.last()))
        }
    }
}

/// The lines of `s`, as `str::lines` yields them: split at `\n` or `\r\n`,
/// with no empty line after a final line ending.
pub open spec fn lines(s: Seq<char>) -> Seq<Seq<char>> {
    let scan = line_scan(s);
    if scan.1.len() > 0 {
        scan.0.push(scan.1)
    } else {
        scan.0
    }
}

/// The lines `ls` joined with `\n` between them.
pub open spec fn join_lines(ls: Seq<Seq<char>>) -> Seq<char>
    decreases ls.len(),
{
    if ls.len() == 0 {
        Seq::empty()
    } else if ls.len() == 1 {
        ls[0]
    } else {
        join_lines(ls.drop_last()) + seq!['\n'] + ls.last()
    }
}

/// `str::lines`, collected.
pub fn lines_of(s: &[char]) -> (r: Vec<Vec<char>>)
    ensures
        views(r@) == lines(s@),
{
    let n = s.len();
    let mut done: Vec<Vec<char>> = Vec::new();
    let mut cur: Vec<char> = Vec::new();
    for i in 0..n
        invariant
            n == s@.len(),
            (views(done@), cur@) == line_scan(s@.take(i as int)),
    {
        let c = s[i];
        assert(s@.take(i + 1).drop_last() == s@.take(i as int));
        if c == '\n' {
            let mut line = cur;
            let len = line.len();
            if len > 0 && line[len - 1] == '\r' {
                line.pop();
            }
            done.push(line);
            cur = Vec::new();
            assert(views(done@) =~= line_scan(s@.take(i + 1)).0);
        } else {
            cur.push(c);
        }
    }
    assert(s@.take(n as int) == s@);
    if cur.len() > 0 {
        done.push(cur);
        assert(views(done@) =~= lines(s@));
    }
    done
}

/// Joins lines with `\n` between them.
pub fn join_with_newlines(ls: &Vec<Vec<char>>) -> (r: Vec<char>)
    ensures
        r@ == join_lines(views(ls@)),
{
    let n = ls.len();
    let mut r: Vec<char> = Vec::new();
    for i in 0..n
        invariant
            n == ls@.len(),
            r@ == join_lines(views(ls@.take(i as int))),
    {
        assert(views(ls@.take(i + 1)).drop_last() =~= views(ls@.take(i as int)));
        if i > 0 {
            r.push('\n');
        }
        let line = &ls[i];
        let m = line.len();
        let ghost before = r@;
        for k in 0..m
            invariant
                m == line@.len(),
                r@ == before + line@.take(k as int),
        {
            r.push(line[k]);
            assert(line@.take(k + 1) == line@.take(k as int).push(line@[k as int]));
        }
        assert(line@.take(m as int) == line@);
        assert(views(ls@.take(i + 1)).last() == line@);
    }
    assert(ls@.take(n as int) == ls@);
    r
}

} // verus!
