//! Restarting with administrator rights at start-up: when to try, with
//! which arguments, and how often at most.
use vstd::prelude::*;

use crate::decimal::{decimal, parse_u32, parse_unsigned};
use crate::download::{texts, unsigned_text};
use crate::text::{chars_of, contains_char, owned, same_text};

verus! {

/// The argument that marks a process started by the elevation restart.
pub const ELEVATION_FLAG: &'static str = "--elevated";

/// The most restarts tried before giving up.
pub open spec fn max_attempts() -> u32 {
    3
}

/// Whether the argument list holds the elevation flag (`has_elevation_flag`).
pub fn has_elevation_flag(args: &Vec<String>) -> (r: bool)
    ensures
        r == (exists|i: int| 0 <= i < args@.len() && (#[trigger] args@[i])@ == ELEVATION_FLAG@),
{
    let n = args.len();
    for i in 0..n
        invariant
            n == args@.len(),
            forall|k: int| 0 <= k < i ==> (#[trigger] args@[k])@ != ELEVATION_FLAG@,
    {
        if same_text(args[i].as_str(), ELEVATION_FLAG) {
            return true;
        }
    }
    false
}

/// The attempt number carried by the environment variable: its value read
/// as a `u32`, else 0.
pub open spec fn stored_attempt(value: Option<Seq<char>>) -> u32 {
    match value {
        Some(v) => match parse_unsigned(v, u32::MAX as nat) {
            Some(n) => n as u32,
            None => 0u32,
        },
        None => 0u32,
    }
}

/// The number of restarts made so far, from the environment variable that
/// carries it (`get_elevation_attempt`).
pub fn get_elevation_attempt(value: Option<String>) -> (r: u32)
    ensures
        r == stored_attempt(
            match value {
                Some(v) => Some(v@),
                None => None,
            },
        ),
{
    match value {
        Some(v) => {
            let c = chars_of(v.as_str());
            match parse_u32(c.as_slice()) {
                Some(n) => n,
                None => 0,
            }
        },
        None => 0,
    }
}

/// The value stored in the environment for the next process
/// (`set_elevation_attempt_env`).
pub fn elevation_attempt_text(n: u32) -> (r: String)
    ensures
        r@ == decimal(n as nat),
{
    unsigned_text(n as u64)
}

/// The arguments without any elevation flag.
pub open spec fn without_flag(args: Seq<Seq<char>>) -> Seq<Seq<char>> {
    args.filter(|a: Seq<char>| a != ELEVATION_FLAG@)
}

/// The arguments of the restarted process: the current ones without the
/// elevation flag, then the flag.
pub fn relaunch_args(args: &Vec<String>) -> (r: Vec<String>)
    ensures
        texts(r@) == without_flag(texts(args@)).push(ELEVATION_FLAG@),
{
    let n = args.len();
    let ghost pred = |a: Seq<char>| a != ELEVATION_FLAG@;
    let mut r: Vec<String> = Vec::new();
    for i in 0..n
        invariant
            n == args@.len(),
            pred == (|a: Seq<char>| a != ELEVATION_FLAG@),
            texts(r@) == texts(args@.take(i as int)).filter(pred),
    {
        proof {
            reveal(Seq::filter);
            assert(texts(args@.take(i + 1)).drop_last() =~= texts(args@.take(i as int)));
            assert(texts(args@.take(i + 1)).last() == args@[i as int]@);
        }
        if !same_text(args[i].as_str(), ELEVATION_FLAG) {
            r.push(args[i].clone());
            assert(texts(r@) =~= texts(args@.take(i + 1)).filter(pred));
        } else {
            assert(texts(r@) =~= texts(args@.take(i + 1)).filter(pred));
        }
    }
    assert(args@.take(n as int) == args@);
    r.push(owned(ELEVATION_FLAG));
    assert(texts(r@) =~= texts(args@).filter(pred).push(ELEVATION_FLAG@));
    r
}

/// What the start-up elevation check does.
pub enum ElevationStep {
    /// Elevation is switched off.
    Disabled,
    /// Already running as administrator; `restarted` when this process is
    /// the result of a restart.
    AlreadyAdmin { restarted: bool },
    /// A development build: do not restart.
    Development,
    /// Three restarts were tried already: go on without rights.
    GiveUp { attempts: u32 },
    /// Restart as administrator with these arguments, recording this
    /// attempt number.
    Restart { args: Vec<String>, attempt: u32 },
}

/// What the start-up elevation check does (`check_and_elevate`): nothing
/// when switched off or already elevated, nothing in development builds,
/// give up after three attempts, else restart with the flag added.
pub fn check_and_elevate(
    admin_elevation: bool,
    is_admin: bool,
    args: &Vec<String>,
    is_dev: bool,
    attempt: u32,
) -> (r: ElevationStep)
    ensures
        !admin_elevation ==> r is Disabled,
        admin_elevation && is_admin ==> (r matches ElevationStep::AlreadyAdmin { restarted } && restarted
            == (exists|i: int| 0 <= i < args@.len() && (#[trigger] args@[i])@ == ELEVATION_FLAG@)),
        admin_elevation && !is_admin && is_dev ==> r is Development,
        admin_elevation && !is_admin && !is_dev && attempt >= max_attempts() ==> (r matches ElevationStep::GiveUp {
            attempts,
        } && attempts == attempt),
        admin_elevation && !is_admin && !is_dev && attempt < max_attempts() ==> (r matches ElevationStep::Restart {
            args: a,
            attempt: n,
        } && n == attempt + 1 && texts(a@) == without_flag(texts(args@)).push(ELEVATION_FLAG@)),
{
    if !admin_elevation {
        return ElevationStep::Disabled;
    }
    if is_admin {
        return ElevationStep::AlreadyAdmin { restarted: has_elevation_flag(args) };
    }
    if is_dev {
        return ElevationStep::Development;
    }
    if attempt >= 3 {
        return ElevationStep::GiveUp { attempts: attempt };
    }
    ElevationStep::Restart { args: relaunch_args(args), attempt: attempt + 1 }
}

/// One argument as written into the command line: in double quotes when it
/// holds a space.
pub open spec fn quoted_arg(a: Seq<char>) -> Seq<char> {
    if a.contains(' ') {
        seq!['"'] + a + seq!['"']
    } else {
        a
    }
}

/// The command line handed to the restarted process: the arguments
/// separated by single spaces, each quoted when it holds a space.
pub open spec fn command_line(args: Seq<Seq<char>>) -> Seq<char>
    decreases args.len(),
{
    if args.len() == 0 {
        Seq::empty()
    } else if args.len() == 1 {
        quoted_arg(args[0])
    } else {
        command_line(args.drop_last()) + seq![' '] + quoted_arg(args.last())
    }
}

/// The command line handed to the restarted process (`relaunch_as_admin`).
pub fn relaunch_params(args: &Vec<String>) -> (r: String)
    ensures
        r@ == command_line(texts(args@)),
{
    let n = args.len();
    let mut r = String::new();
    for i in 0..n
        invariant
            n == args@.len(),
            r@ == command_line(texts(args@.take(i as int))),
    {
        assert(texts(args@.take(i + 1)).drop_last() =~= texts(args@.take(i as int)));
        assert(texts(args@.take(i + 1)).last() == args@[i as int]@);
        if i > 0 {
            crate::text::push_char(&mut r, ' ');
        }
        let a = chars_of(args[i].as_str());
        if contains_char(a.as_slice(), ' ') {
            crate::text::push_char(&mut r, '"');
            r.append(args[i].as_str());
            crate::text::push_char(&mut r, '"');
        } else {
            r.append(args[i].as_str());
        }
        proof {
            if i > 0 {
                assert(r@ =~= command_line(texts(args@.take(i + 1))));
            } else {
                assert(texts(args@.take(i as int)) =~= Seq::<Seq<char>>::empty());
                assert(r@ =~= command_line(texts(args@.take(i + 1))));
            }
        }
    }
    assert(args@.take(n as int) == args@);
    r
}

/// The attempt number read by the process reached after `k` restarts in a
/// row: the first process finds no variable, and each restart records the
/// text of its attempt number (one more than it read) for the next.
pub open spec fn attempt_after(k: nat) -> u32
    decreases k,
{
    if k == 0 {
        stored_attempt(None)
    } else {
        stored_attempt(Some(decimal((attempt_after((k - 1) as nat) + 1) as nat)))
    }
}

proof fn lemma_attempt_after(k: nat)
    requires
        k <= max_attempts(),
    ensures
        attempt_after(k) == k,
    decreases k,
{
    if k > 0 {
        lemma_attempt_after((k - 1) as nat);
        crate::decimal::law_parse_of_format(k, u32::MAX as nat);
    }
}

/// The elevation restart is tried at most three times in a row: when each
/// of `k` processes in a chain restarted (read an attempt number below the
/// limit), then `k` is at most three, and the `j`-th process read `j`.
pub proof fn law_restart_attempts_bounded(k: nat)
    requires
        forall|j: nat| j < k ==> #[trigger] attempt_after(j) < max_attempts(),
    ensures
        k <= max_attempts(),
        forall|j: nat| j < k ==> #[trigger] attempt_after(j) == j,
{
    if k > max_attempts() {
        lemma_attempt_after(max_attempts() as nat);
        assert(attempt_after(max_attempts() as nat) < max_attempts());
    }
    assert forall|j: nat| j < k implies #[trigger] attempt_after(j) == j by {
        lemma_attempt_after(j);
    }
}

} // verus!
