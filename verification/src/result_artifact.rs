use vstd::prelude::*;

use crate::json::{doc_of, find_member, find_member_idx, parse_doc, Doc, DocV};
use crate::text::{chars_to_string, str_to_chars};

verus! {

/// Why an invocation's result artifact yields nothing.  Neither case is
/// fatal: a missing or corrupt artifact is logged and the loop goes on.
#[derive(PartialEq, Eq, Structural, Clone, Copy, Debug)]
pub enum ResultError {
    /// No artifact content was found for the request.
    Missing,
    /// The content is not one well-formed object with a `payload` member.
    Malformed,
}

/// The raw text of the artifact's `payload` value, when the content is a
/// single well-formed object that has one.
pub open spec fn sp_payload(s: Seq<char>) -> Result<Seq<char>, ResultError> {
    match doc_of(s) {
        DocV::Members(ms) => match find_member(ms, "payload"@) {
            Some(m) => Ok(s.subrange(m.start, m.end)),
            None => Err(ResultError::Malformed),
        },
        _ => Err(ResultError::Malformed),
    }
}

/// Extracts the payload text of a result artifact's content.
pub fn read_payload(content: &str) -> (r: Result<String, ResultError>)
    ensures
        match r {
            Ok(p) => sp_payload(content@) == Ok::<_, ResultError>(p@),
            Err(e) => sp_payload(content@) == Err::<Seq<char>, _>(e),
        },
{
    let s = str_to_chars(content);
    match parse_doc(&s) {
        Doc::Members(ms) => {
            let key = str_to_chars("payload");
            match find_member_idx(&ms, &key) {
                Some(k) => {
                    let raw = crate::json::copy_range(&s, ms[k].start, ms[k].end);
                    Ok(chars_to_string(&raw))
                },
                None => Err(ResultError::Malformed),
            }
        },
        _ => Err(ResultError::Malformed),
    }
}

/// Interprets the outcome of looking a result artifact up: absent content
/// is `Missing`; present content yields its payload text or `Malformed`.
pub fn interpret_result(content: Option<&str>) -> (r: Result<String, ResultError>)
    ensures
        content matches Some(c) ==> match r {
            Ok(p) => sp_payload(c@) == Ok::<_, ResultError>(p@),
            Err(e) => sp_payload(c@) == Err::<Seq<char>, _>(e),
        },
        content is None ==> r == Err::<String, _>(ResultError::Missing),
{
    match content {
        None => Err(ResultError::Missing),
        Some(c) => read_payload(c),
    }
}

} // verus!
