//! File-system locations described as a base directory and the names joined
//! below it; the caller turns them into platform paths.
use vstd::prelude::*;

verus! {

/// A location: `base` with each of `parts` joined below it in order.
pub struct PathSpec {
    pub base: String,
    pub parts: Vec<String>,
}

impl PathSpec {
    /// The views of the names below the base, in order.
    pub open spec fn spec_parts(&self) -> Seq<Seq<char>> {
        self.parts@.map_values(|p: String| p@)
    }
}

/// A location of one name below `base`.
pub fn path1(base: &str, a: &str) -> (r: PathSpec)
    ensures
        r.base@ == base@,
        r.spec_parts() == seq![a@],
{
    let mut parts: Vec<String> = Vec::new();
    parts.push(String::from_str(a));
    let r = PathSpec { base: String::from_str(base), parts };
    assert(r.spec_parts() =~= seq![a@]);
    r
}

/// A location of two names below `base`.
pub fn path2(base: &str, a: &str, b: &str) -> (r: PathSpec)
    ensures
        r.base@ == base@,
        r.spec_parts() == seq![a@, b@],
{
    let mut parts: Vec<String> = Vec::new();
    parts.push(String::from_str(a));
    parts.push(String::from_str(b));
    let r = PathSpec { base: String::from_str(base), parts };
    assert(r.spec_parts() =~= seq![a@, b@]);
    r
}

/// A location of three names below `base`.
pub fn path3(base: &str, a: &str, b: &str, c: &str) -> (r: PathSpec)
    ensures
        r.base@ == base@,
        r.spec_parts() == seq![a@, b@, c@],
{
    let mut parts: Vec<String> = Vec::new();
    parts.push(String::from_str(a));
    parts.push(String::from_str(b));
    parts.push(String::from_str(c));
    let r = PathSpec { base: String::from_str(base), parts };
    assert(r.spec_parts() =~= seq![a@, b@, c@]);
    r
}

/// A location of four names below `base`.
pub fn path4(base: &str, a: &str, b: &str, c: &str, d: &str) -> (r: PathSpec)
    ensures
        r.base@ == base@,
        r.spec_parts() == seq![a@, b@, c@, d@],
{
    let mut parts: Vec<String> = Vec::new();
    parts.push(String::from_str(a));
    parts.push(String::from_str(b));
    parts.push(String::from_str(c));
    parts.push(String::from_str(d));
    let r = PathSpec { base: String::from_str(base), parts };
    assert(r.spec_parts() =~= seq![a@, b@, c@, d@]);
    r
}

/// A location of five names below `base`.
pub fn path5(base: &str, a: &str, b: &str, c: &str, d: &str, e: &str) -> (r: PathSpec)
    ensures
        r.base@ == base@,
        r.spec_parts() == seq![a@, b@, c@, d@, e@],
{
    let mut parts: Vec<String> = Vec::new();
    parts.push(String::from_str(a));
    parts.push(String::from_str(b));
    parts.push(String::from_str(c));
    parts.push(String::from_str(d));
    parts.push(String::from_str(e));
    let r = PathSpec { base: String::from_str(base), parts };
    assert(r.spec_parts() =~= seq![a@, b@, c@, d@, e@]);
    r
}

/// The index of the first `true` flag: the first candidate that exists.
pub fn first_present(flags: &[bool]) -> (r: Option<usize>)
    ensures
        match r {
            Some(i) => i < flags@.len() && flags@[i as int] && forall|j: int|
                0 <= j < i ==> !flags@[j],
            None => forall|j: int| 0 <= j < flags@.len() ==> !flags@[j],
        },
{
    let n = flags.len();
    for i in 0..n
        invariant
            n == flags@.len(),
            forall|j: int| 0 <= j < i ==> !flags@[j],
    {
        if flags[i] {
            return Some(i);
        }
    }
    None
}

} // verus!
