use vstd::prelude::*;

verus! {

/// What `serde_json` reads from `body` at the object key `key`: `None` when
/// `body` is not a JSON document, `Some(Some(t))` when it is an object whose
/// member `key` is the JSON string `t`, and `Some(None)` otherwise.
pub uninterp spec fn json_text_member(body: Seq<char>, key: Seq<char>) -> Option<Option<Seq<char>>>;

/// The string member `key` of the JSON object in `body`, when there is one.
pub open spec fn json_text(body: Seq<char>, key: Seq<char>) -> Option<Seq<char>> {
    match json_text_member(body, key) {
        Some(Some(t)) => Some(t),
        _ => None,
    }
}

/// Parses `body` with `serde_json::from_str` into a `serde_json::Value` and
/// reads the member `key` of it with `Value::get` and `Value::as_str`. The
/// contract claims only that the result is `json_text_member` of the two
/// texts: `None` exactly when parsing fails.
#[verifier::external_body]
pub(crate) fn read_json_text_member(body: &str, key: &str) -> (r: Option<Option<String>>)
    ensures
        match r {
            None => json_text_member(body@, key@) is None,
            Some(None) => json_text_member(body@, key@) == Some(None::<Seq<char>>),
            Some(Some(t)) => json_text_member(body@, key@) == Some(Some(t@)),
        },
{
    match serde_json::from_str::<serde_json::Value>(body) {
        Ok(v) => Some(v.get(key).and_then(|m| m.as_str()).map(String::from)),
        Err(_) => None,
    }
}

/// The string member `key` of the JSON object in `body`, when there is one.
pub(crate) fn json_text_of(body: &str, key: &str) -> (r: Option<String>)
    ensures
        match r {
            Some(t) => json_text(body@, key@) == Some(t@),
            None => json_text(body@, key@) is None,
        },
{
    match read_json_text_member(body, key) {
        Some(Some(t)) => Some(t),
        _ => None,
    }
}

} // verus!
