//! Reading one field of one entry of a JSON document, and setting it.  The
//! keys are chosen by the callers; these items only parse and print.
use vstd::prelude::*;

use crate::mumu_info::opt_text;

verus! {

/// What `serde_json::from_str::<serde_json::Value>` gives for a text, read at
/// the entry `key` of the document (`Value::get`): the text of the parse
/// error; `None` when there is no such entry; else whether the entry is an
/// object (`Value::is_object`), whether it is null (`Value::is_null`), and
/// its member `field` as a string (`Value::get`, `Value::as_str`; `None` when
/// missing or not a string).
pub uninterp spec fn json_entry_field(text: Seq<char>, key: Seq<char>, field: Seq<char>) -> Result<
    Option<(bool, bool, Option<Seq<char>>)>,
    Seq<char>,
>;

/// What `serde_json::to_string_pretty` gives for the document of a text
/// whose member `field` of the entry `key` is set to the string `value`.
pub uninterp spec fn json_with_field(text: Seq<char>, key: Seq<char>, field: Seq<char>, value: Seq<char>) -> Result<
    Seq<char>,
    Seq<char>,
>;

/// The view of what `entry_field` returns.
pub open spec fn entry_view(e: Option<(bool, bool, Option<String>)>) -> Option<(bool, bool, Option<Seq<char>>)> {
    match e {
        Some((o, n, f)) => Some((o, n, opt_text(f))),
        None => None,
    }
}

/// Trusted: calls `serde_json::from_str::<serde_json::Value>`, then
/// `Value::get` with `key`, `Value::is_object`, `Value::is_null`, and
/// `Value::get` with `field` and `Value::as_str`; the result is named
/// `json_entry_field`.
#[verifier::external_body]
pub(crate) fn entry_field(text: &str, key: &str, field: &str) -> (r: Result<Option<(bool, bool, Option<String>)>, String>)
    ensures
        match r {
            Ok(e) => json_entry_field(text@, key@, field@) == Ok::<Option<(bool, bool, Option<Seq<char>>)>, Seq<char>>(entry_view(e)),
            Err(e) => json_entry_field(text@, key@, field@) == Err::<Option<(bool, bool, Option<Seq<char>>)>, Seq<char>>(e@),
        },
{
    let json: serde_json::Value = serde_json::from_str(text).map_err(|e| e.to_string())?;
    Ok(json.get(key).map(|p| (p.is_object(), p.is_null(), p.get(field).and_then(|v| v.as_str()).map(|s| s.to_string()))))
}

/// Trusted: parses the text with `serde_json::from_str::<serde_json::Value>`,
/// sets the member `field` of the entry `key` to the string `value` by
/// indexing, and calls `serde_json::to_string_pretty`; the result is named
/// `json_with_field`.  Indexing does not panic because the document parses
/// and the entry is an object or null (required); a null entry becomes an
/// object.  The printed document parses again, and its entry is then an
/// object whose member `field` is `value`.
#[verifier::external_body]
pub(crate) fn with_field(text: &str, key: &str, field: &str, value: &str) -> (r: Result<String, String>)
    requires
        json_entry_field(text@, key@, field@) matches Ok(Some((o, n, _))) && (o || n),
    ensures
        match r {
            Ok(t) => json_with_field(text@, key@, field@, value@) == Ok::<Seq<char>, Seq<char>>(t@)
                && json_entry_field(t@, key@, field@) == Ok::<Option<(bool, bool, Option<Seq<char>>)>, Seq<char>>(
                Some((true, false, Some(value@))),
            ),
            Err(e) => json_with_field(text@, key@, field@, value@) == Err::<Seq<char>, Seq<char>>(e@),
        },
{
    let mut json: serde_json::Value = serde_json::from_str(text).map_err(|e| e.to_string())?;
    json[key][field] = serde_json::Value::String(value.to_string());
    serde_json::to_string_pretty(&json).map_err(|e| e.to_string())
}

} // verus!
