//! The order in which lists are shown: by name without regard to case, and
//! names that compare equal keep the order in which they were found (a
//! stable sort on the lowercased names).
use vstd::prelude::*;

use crate::text::{chars_of, lowercase, to_lowercase};

verus! {

/// How two texts compare (the order of `str`): character by character by
/// code point, a proper prefix first.  `-1`, `0` or `1`.
pub open spec fn text_compare(a: Seq<char>, b: Seq<char>) -> int
    decreases a.len(),
{
    if a.len() == 0 {
        if b.len() == 0 {
            0
        } else {
            -1
        }
    } else if b.len() == 0 {
        1
    } else if a[0] < b[0] {
        -1
    } else if a[0] > b[0] {
        1
    } else {
        text_compare(a.drop_first(), b.drop_first())
    }
}

/// Whether the item found at `i` is shown before the one found at `j`: its
/// lowercased name comes first, or the names are equal and it was found
/// first.
pub open spec fn shown_before(names: Seq<String>, i: int, j: int) -> bool {
    let c = text_compare(lowercase(names[i]@), lowercase(names[j]@));
    c < 0 || (c == 0 && i < j)
}

/// Swapping the texts negates the comparison.
pub proof fn lemma_text_compare_antisymmetric(a: Seq<char>, b: Seq<char>)
    ensures
        text_compare(a, b) == -text_compare(b, a),
    decreases a.len(),
{
    if a.len() > 0 && b.len() > 0 && a[0] == b[0] {
        lemma_text_compare_antisymmetric(a.drop_first(), b.drop_first());
    }
}

/// The comparison is transitive, strictly so when one step is strict.
pub proof fn lemma_text_compare_transitive(a: Seq<char>, b: Seq<char>, c: Seq<char>)
    ensures
        text_compare(a, b) <= 0 && text_compare(b, c) <= 0 ==> text_compare(a, c) <= 0,
        text_compare(a, b) < 0 && text_compare(b, c) <= 0 ==> text_compare(a, c) < 0,
        text_compare(a, b) <= 0 && text_compare(b, c) < 0 ==> text_compare(a, c) < 0,
    decreases a.len(),
{
    if a.len() > 0 && b.len() > 0 && c.len() > 0 && a[0] == b[0] && b[0] == c[0] {
        lemma_text_compare_transitive(a.drop_first(), b.drop_first(), c.drop_first());
    }
}

/// Compares two texts (`Ord` of `str`).
fn compare_chars(a: &[char], b: &[char]) -> (r: i8)
    ensures
        r as int == text_compare(a@, b@),
{
    let mut i: usize = 0;
    assert(a@.skip(0) =~= a@);
    assert(b@.skip(0) =~= b@);
    loop
        invariant
            i <= a@.len(),
            i <= b@.len(),
            text_compare(a@, b@) == text_compare(a@.skip(i as int), b@.skip(i as int)),
        ensures
            i <= a@.len(),
            i <= b@.len(),
            text_compare(a@, b@) == text_compare(a@.skip(i as int), b@.skip(i as int)),
            i == a@.len() || i == b@.len() || a@[i as int] != b@[i as int],
        decreases a@.len() - i,
    {
        if i == a.len() || i == b.len() || a[i] != b[i] {
            break;
        }
        assert(a@.skip(i as int).drop_first() =~= a@.skip(i + 1));
        assert(b@.skip(i as int).drop_first() =~= b@.skip(i + 1));
        i = i + 1;
    }
    proof {
        if i < a@.len() {
            assert(a@.skip(i as int)[0] == a@[i as int]);
        }
        if i < b@.len() {
            assert(b@.skip(i as int)[0] == b@[i as int]);
        }
    }
    if i == a.len() {
        if i == b.len() {
            0
        } else {
            -1
        }
    } else if i == b.len() {
        1
    } else if a[i] < b[i] {
        -1
    } else {
        1
    }
}

/// The order in which to show items with these names: the positions of the
/// names, each once, sorted by lowercased name; equal names keep the order
/// in which they were found.
pub fn display_order(names: &Vec<String>) -> (r: Vec<usize>)
    ensures
        r@.len() == names@.len(),
        forall|k: int| 0 <= k < r@.len() ==> r@[k] < names@.len(),
        forall|k1: int, k2: int| 0 <= k1 < k2 < r@.len() ==> r@[k1] != r@[k2],
        forall|k1: int, k2: int|
            0 <= k1 < k2 < r@.len() ==> shown_before(names@, r@[k1] as int, r@[k2] as int),
{
    let n = names.len();
    let mut keys: Vec<Vec<char>> = Vec::new();
    for i in 0..n
        invariant
            n == names@.len(),
            keys@.len() == i,
            forall|k: int| 0 <= k < i ==> (#[trigger] keys@[k])@ == lowercase(names@[k]@),
    {
        let l = to_lowercase(names[i].as_str());
        keys.push(chars_of(l.as_str()));
    }
    let mut r: Vec<usize> = Vec::new();
    for i in 0..n
        invariant
            n == names@.len(),
            keys@.len() == n,
            forall|k: int| 0 <= k < n ==> (#[trigger] keys@[k])@ == lowercase(names@[k]@),
            r@.len() == i,
            forall|k: int| 0 <= k < r@.len() ==> r@[k] < i,
            forall|k1: int, k2: int| 0 <= k1 < k2 < r@.len() ==> r@[k1] != r@[k2],
            forall|k1: int, k2: int|
                0 <= k1 < k2 < r@.len() ==> shown_before(names@, r@[k1] as int, r@[k2] as int),
    {
        let mut p: usize = 0;
        loop
            invariant
                p <= r@.len(),
                r@.len() == i,
                i < n,
                keys@.len() == n,
                forall|k: int| 0 <= k < r@.len() ==> r@[k] < i,
                forall|q: int|
                    0 <= q < p ==> text_compare(keys@[r@[q] as int]@, keys@[i as int]@) <= 0,
            ensures
                p <= r@.len(),
                p == r@.len() || text_compare(keys@[r@[p as int] as int]@, keys@[i as int]@) > 0,
                forall|q: int|
                    0 <= q < p ==> text_compare(keys@[r@[q] as int]@, keys@[i as int]@) <= 0,
            decreases r@.len() - p,
        {
            if p == r.len() {
                break;
            }
            if compare_chars(keys[r[p]].as_slice(), keys[i].as_slice()) > 0 {
                break;
            }
            p = p + 1;
        }
        let ghost old_r = r@;
        proof {
            assert forall|q: int| p <= q < old_r.len() implies text_compare(
                keys@[i as int]@,
                keys@[old_r[q] as int]@,
            ) < 0 by {
                let x = keys@[i as int]@;
                let y = keys@[old_r[p as int] as int]@;
                let z = keys@[old_r[q] as int]@;
                lemma_text_compare_antisymmetric(y, x);
                if q > p {
                    assert(shown_before(names@, old_r[p as int] as int, old_r[q] as int));
                    lemma_text_compare_transitive(x, y, z);
                }
            }
        }
        r.insert(p, i);
        proof {
            assert forall|k1: int, k2: int| 0 <= k1 < k2 < r@.len() implies shown_before(
                names@,
                r@[k1] as int,
                r@[k2] as int,
            ) by {
                if k1 < p && k2 == p {
                    assert(text_compare(keys@[old_r[k1] as int]@, keys@[i as int]@) <= 0);
                } else if k1 == p {
                    assert(text_compare(keys@[i as int]@, keys@[old_r[k2 - 1] as int]@) < 0);
                } else if k1 < p && k2 < p {
                    assert(r@[k1] == old_r[k1] && r@[k2] == old_r[k2]);
                } else if k1 < p {
                    assert(r@[k1] == old_r[k1] && r@[k2] == old_r[k2 - 1]);
                } else {
                    assert(r@[k1] == old_r[k1 - 1] && r@[k2] == old_r[k2 - 1]);
                }
            }
            assert forall|k1: int, k2: int| 0 <= k1 < k2 < r@.len() implies r@[k1] != r@[k2] by {
                if k1 < p && k2 < p {
                    assert(r@[k1] == old_r[k1] && r@[k2] == old_r[k2]);
                } else if k1 < p && k2 > p {
                    assert(r@[k1] == old_r[k1] && r@[k2] == old_r[k2 - 1]);
                } else if k1 > p {
                    assert(r@[k1] == old_r[k1 - 1] && r@[k2] == old_r[k2 - 1]);
                }
            }
        }
    }
    r
}

} // verus!
