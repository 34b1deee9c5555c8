//! The application log: how lines are written and read back.
use vstd::prelude::*;

use crate::download::texts;
use crate::text::{chars_of, lines, lines_of, string_of, views};

verus! {

/// A line written by the log command: the time in brackets, then the
/// message, then a line feed.
pub fn log_line(timestamp: &str, message: &str) -> (r: String)
    ensures
        r@ == "["@ + timestamp@ + "] "@ + message@ + "\n"@,
{
    let mut r = String::from_str("[");
    r.append(timestamp);
    r.append("] ");
    r.append(message);
    r.append("\n");
    r
}

/// A line written by the logger: the time and the level in brackets, then
/// the message, then a line feed.
pub fn logger_line(timestamp: &str, level: &str, message: &str) -> (r: String)
    ensures
        r@ == "["@ + timestamp@ + "] ["@ + level@ + "] "@ + message@ + "\n"@,
{
    let mut r = String::from_str("[");
    r.append(timestamp);
    r.append("] [");
    r.append(level);
    r.append("] ");
    r.append(message);
    r.append("\n");
    r
}

/// The lines of the log file, as the log page shows them (`get_logs`).
pub fn log_lines(content: &str) -> (r: Vec<String>)
    ensures
        texts(r@) == lines(content@),
{
    let c = chars_of(content);
    let ls = lines_of(c.as_slice());
    let n = ls.len();
    let mut r: Vec<String> = Vec::new();
    for i in 0..n
        invariant
            n == ls@.len(),
            texts(r@) == views(ls@).take(i as int),
    {
        let line = string_of(ls[i].as_slice());
        assert(views(ls@)[i as int] == ls@[i as int]@);
        assert(views(ls@).take(i + 1) =~= views(ls@).take(i as int).push(ls@[i as int]@));
        r.push(line);
        assert(texts(r@) =~= views(ls@).take(i + 1));
    }
    assert(views(ls@).take(n as int) == views(ls@));
    r
}

} // verus!
