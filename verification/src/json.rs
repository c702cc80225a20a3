//! The boundary to the JSON library: parsing a response body and
//! pretty-printing it for the viewer.

use vstd::prelude::*;

verus! {

/// Whether a text is a JSON document that the dispatcher accepts: it parses
/// as a JSON value and that value serializes back.
pub uninterp spec fn json_wellformed(s: Seq<char>) -> bool;

/// The pretty-printed rendering of a well-formed JSON text.
pub uninterp spec fn json_pretty(s: Seq<char>) -> Seq<char>;

/// Relies on `serde_json::from_str::<Value>` and
/// `serde_json::to_string_pretty`: whether a text parses as a JSON value,
/// and the pretty-printed rendering of the parsed value, depend on the text
/// alone. The failure message carried back is the library's own and nothing
/// is assumed of it.
#[verifier::external_body]
pub(crate) fn parse_pretty(body: &Vec<char>) -> (r: Result<Vec<char>, Vec<char>>)
    ensures
        r is Ok <==> json_wellformed(body@),
        r matches Ok(p) ==> p@ == json_pretty(body@),
{
    let text: String = body.iter().collect();
    match serde_json::from_str::<serde_json::Value>(&text) {
        Ok(value) => match serde_json::to_string_pretty(&value) {
            Ok(pretty) => Ok(pretty.chars().collect()),
            Err(e) => Err(e.to_string().chars().collect()),
        },
        Err(e) => Err(e.to_string().chars().collect()),
    }
}

} // verus!
