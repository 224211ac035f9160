//! Decoding of the directory service's answer. The endpoint list lives at
//! the fixed path `response.serverlist`; a missing path or a non-success
//! status degrades to an empty list, and only a body that is not JSON at
//! all is a hard error.

use crate::json::json_document;
use vstd::prelude::*;

verus! {

/// The only hard error of the decode: the body is not a JSON document.
#[derive(Debug, Clone, Copy, PartialEq, Eq, Structural)]
pub enum DirectoryError {
    MalformedBody,
}

/// What inspecting the body found.
#[derive(Debug)]
pub enum DirectoryDecode {
    /// `response.serverlist` was there: its elements, one string per
    /// element, a non-string element read as an empty string.
    Servers(Vec<String>),
    /// Valid JSON, but no list at `response.serverlist`.
    PathMissing,
    /// The body is not JSON.
    MalformedBody,
}

/// The server list a JSON body holds at the fixed path
/// `response.serverlist`: one string per element of that array, in order,
/// a non-string element read as an empty string; None when the body holds
/// no array there. Named, not defined: it is a function of the body text
/// alone, and the trusted reader below states its result with it.
pub uninterp spec fn serverlist_of(body: Seq<char>) -> Option<Seq<Seq<char>>>;

/// Relies on serde_json::from_str::<Value>, Value::get, Value::as_array
/// and Value::as_str: parses the body and reads the string array at the
/// fixed path `response.serverlist`. None when the body is not JSON;
/// otherwise the list exactly as `serverlist_of` names it.
#[verifier::external_body]
fn read_serverlist(body: &str) -> (r: Option<Option<Vec<String>>>)
    ensures
        r is Some <==> json_document(body@),
        r matches Some(found) ==> found.deep_view() == serverlist_of(body@),
{
    match serde_json::from_str::<serde_json::Value>(body) {
        Err(_) => None,
        Ok(v) => Some(
            v.get("response")
                .and_then(|resp| resp.get("serverlist"))
                .and_then(|list| list.as_array())
                .map(|a| a.iter().map(|e| e.as_str().unwrap_or_default().to_owned()).collect()),
        ),
    }
}

/// The fixed directory endpoint that is queried for the current server
/// list.
pub fn directory_url() -> (r: &'static str)
    ensures
        r@ == "https://api.steampowered.com/ISteamDirectory/GetCMList/v1/?format=json&cellid=0"@,
{
    "https://api.steampowered.com/ISteamDirectory/GetCMList/v1/?format=json&cellid=0"
}

/// Inspects the body for the server list at `response.serverlist`, and
/// tells the three cases apart exactly: not JSON, JSON without the list,
/// or the named list itself.
pub fn extract_serverlist(body: &str) -> (r: DirectoryDecode)
    ensures
        match r {
            DirectoryDecode::MalformedBody => !json_document(body@),
            DirectoryDecode::PathMissing => json_document(body@) && serverlist_of(body@) is None,
            DirectoryDecode::Servers(v) => json_document(body@) && (serverlist_of(
                body@,
            ) matches Some(l) && v.deep_view() == l),
        },
{
    match read_serverlist(body) {
        None => DirectoryDecode::MalformedBody,
        Some(None) => DirectoryDecode::PathMissing,
        Some(Some(v)) => DirectoryDecode::Servers(v),
    }
}

/// The recovery policy of the fetch, for every possible outcome: a
/// non-success status or a missing list degrades to no endpoints; the
/// found list is taken as it is; only a malformed body is an error.
pub fn directory_endpoints(status_ok: bool, decoded: DirectoryDecode) -> (r: Result<
    Vec<String>,
    DirectoryError,
>)
    ensures
        !status_ok ==> (r matches Ok(v) && v@.len() == 0),
        status_ok ==> match decoded {
            DirectoryDecode::Servers(l) => r matches Ok(v) && v == l,
            DirectoryDecode::PathMissing => r matches Ok(v) && v@.len() == 0,
            DirectoryDecode::MalformedBody => r matches Err(e) && e == DirectoryError::MalformedBody,
        },
{
    if !status_ok {
        return Ok(Vec::new());
    }
    match decoded {
        DirectoryDecode::Servers(l) => Ok(l),
        DirectoryDecode::PathMissing => Ok(Vec::new()),
        DirectoryDecode::MalformedBody => Err(DirectoryError::MalformedBody),
    }
}

/// The whole decode of one fetch: extracts the server list from the body
/// and applies the recovery policy to it. On a success status the result
/// is the body's named server list (an empty list when the path is
/// missing), and the error comes exactly when the body is not JSON.
pub fn decode_directory_response(status_ok: bool, body: &str) -> (r: Result<
    Vec<String>,
    DirectoryError,
>)
    ensures
        !status_ok ==> (r matches Ok(v) && v@.len() == 0),
        status_ok ==> match r {
            Ok(v) => json_document(body@) && match serverlist_of(body@) {
                Some(l) => v.deep_view() == l,
                None => v@.len() == 0,
            },
            Err(e) => !json_document(body@) && e == DirectoryError::MalformedBody,
        },
{
    if !status_ok {
        return Ok(Vec::new());
    }
    let decoded = extract_serverlist(body);
    directory_endpoints(true, decoded)
}

} // verus!
