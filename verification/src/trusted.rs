//! Declarations for the outside functions the library calls: JSON access
//! through `serde_json`, URL splitting through `url`, Unicode case folding
//! and the system clock. Verus believes the contracts stated here without
//! reading the bodies; everything else in the crate is proved against them.

use vstd::prelude::*;

verus! {

// Raw records fetched from the service are opaque JSON values; the library
// carries them through without assuming a schema.
#[verifier::external_type_specification]
#[verifier::external_body]
pub struct ExValue(serde_json::Value);

/// What `str::to_lowercase` returns: a function of the characters alone.
pub uninterp spec fn unicode_lower_of(s: Seq<char>) -> Seq<char>;

/// Relies on str::to_lowercase: the Unicode lower-case form of the string,
/// depending on its characters alone; an empty string stays empty.
#[verifier::external_body]
pub(crate) fn lowercase(s: &str) -> (r: String)
    ensures
        r@ == unicode_lower_of(s@),
        s@.len() == 0 ==> r@.len() == 0,
{
    s.to_lowercase()
}

/// What `url::Url::parse` yields for a string: its scheme and host when the
/// string parses as an absolute URL (the host part empty when the URL has
/// none), or nothing when it does not parse. A function of the characters
/// alone.
pub uninterp spec fn url_scheme_host(s: Seq<char>) -> Option<(Seq<char>, Seq<char>)>;

/// Relies on url::Url::parse (the same parser reqwest re-exports), and on
/// Url::scheme and Url::host_str to read the two components back out.
#[verifier::external_body]
pub(crate) fn split_scheme_host(s: &str) -> (r: Option<(String, String)>)
    ensures
        (r is Some) == (url_scheme_host(s@) is Some),
        r matches Some(p) ==> url_scheme_host(s@) matches Some(q) && p.0@ == q.0 && p.1@
            == q.1,
{
    match url::Url::parse(s) {
        Ok(u) => Some((u.scheme().to_string(), u.host_str().unwrap_or("").to_string())),
        Err(_) => None,
    }
}

/// Relies on std::time::SystemTime::now; the reading is handed out as whole
/// seconds since the UNIX epoch (zero if the clock stands before it).
/// Nothing more can be promised of a clock.
#[verifier::external_body]
pub(crate) fn unix_now_secs() -> (r: u64) {
    match std::time::SystemTime::now().duration_since(std::time::SystemTime::UNIX_EPOCH) {
        Ok(d) => d.as_secs(),
        Err(_) => 0,
    }
}

/// Whether `serde_json::from_str::<Value>` accepts the string as one JSON
/// document: a function of the characters alone.
pub uninterp spec fn spec_json_parses(s: Seq<char>) -> bool;

/// Relies on serde_json::from_str::<Value>: the string parsed as a single
/// JSON document, or the parser's message when it is not one.
#[verifier::external_body]
pub(crate) fn json_parse(s: &str) -> (r: Result<serde_json::Value, String>)
    ensures
        (r is Ok) == spec_json_parses(s@),
{
    match serde_json::from_str::<serde_json::Value>(s) {
        Ok(v) => Ok(v),
        Err(e) => Err(e.to_string()),
    }
}

/// What the page decode reads out of a response body, a function of its
/// characters alone: nothing when the body is not one JSON document; else,
/// in order, the document's `@odata.context`, `@odata.nextLink`,
/// `@odata.count` and `@odata.deltaLink` members — each present exactly
/// when it is a string (the count an integer fitting i64) — and the
/// elements of its `value` array, empty when `value` is absent or no
/// array.
pub uninterp spec fn spec_page_fields_of(s: Seq<char>) -> Option<
    (Option<Seq<char>>, Option<Seq<char>>, Option<i64>, Option<Seq<char>>, Seq<serde_json::Value>),
>;

/// Relies on serde_json::from_str::<Value> and on Value::get, Value::as_str,
/// Value::as_i64 and Value::as_array: the page fields of the body, as
/// `spec_page_fields_of` describes them, or the parser's message when the
/// body is not one JSON document.
#[verifier::external_body]
pub(crate) fn page_parts(body: &str) -> (r: Result<
    (Option<String>, Option<String>, Option<i64>, Option<String>, Vec<serde_json::Value>),
    String,
>)
    ensures
        (r is Ok) == spec_json_parses(body@),
        (r is Ok) == (spec_page_fields_of(body@) is Some),
        r matches Ok(p) ==> spec_page_fields_of(body@) matches Some(q) && p.0.deep_view() == q.0
            && p.1.deep_view() == q.1 && p.2 == q.2 && p.3.deep_view() == q.3 && p.4@ == q.4,
{
    let v: serde_json::Value = match serde_json::from_str(body) {
        Ok(v) => v,
        Err(e) => return Err(e.to_string()),
    };
    let context = v.get("@odata.context").and_then(serde_json::Value::as_str).map(str::to_owned);
    let next_link = v.get("@odata.nextLink").and_then(serde_json::Value::as_str).map(str::to_owned);
    let count = v.get("@odata.count").and_then(serde_json::Value::as_i64);
    let delta_link = v.get("@odata.deltaLink").and_then(serde_json::Value::as_str).map(str::to_owned);
    let value = v.get("value").and_then(serde_json::Value::as_array).cloned().unwrap_or_default();
    Ok((context, next_link, count, delta_link, value))
}

/// What the token decode reads out of a token response body, a function of
/// its characters alone: the characters of the document's `access_token`
/// string member and the value of its `expires_in` unsigned-integer
/// member, when the body is one JSON document that has both and a
/// `token_type` string member beside them; nothing otherwise.
pub uninterp spec fn spec_token_fields_of(s: Seq<char>) -> Option<(Seq<char>, u64)>;

/// Relies on serde_json::from_str::<Value> and on Value::get, Value::as_str
/// and Value::as_u64: the token fields of the body, as
/// `spec_token_fields_of` describes them, or a message naming what was
/// unreadable.
#[verifier::external_body]
pub(crate) fn token_parts(body: &str) -> (r: Result<(String, u64), String>)
    ensures
        (r is Ok) == (spec_token_fields_of(body@) is Some),
        r matches Ok(p) ==> spec_token_fields_of(body@) matches Some(q) && p.0@ == q.0 && p.1
            == q.1,
{
    let v: serde_json::Value = serde_json::from_str(body).map_err(|e| e.to_string())?;
    let tok = v.get("access_token").and_then(serde_json::Value::as_str).map(str::to_owned);
    let tok = tok.ok_or_else(|| "missing field `access_token`".to_owned())?;
    let exp = v.get("expires_in").and_then(serde_json::Value::as_u64);
    let exp = exp.ok_or_else(|| "missing field `expires_in`".to_owned())?;
    match v.get("token_type").and_then(serde_json::Value::as_str) {
        Some(_) => Ok((tok, exp)),
        None => Err("missing field `token_type`".to_owned()),
    }
}

} // verus!
