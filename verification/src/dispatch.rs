//! Top-level control: the single startup decision between the two run
//! modes, and the per-connection response of serve mode.

use crate::http::{http_response, http_response_of};
use crate::normalize::{dedup_addresses, remove_ports_and_distinct_ips};
use crate::script::{generate_mikrotik_rsc, script_of};
use vstd::prelude::*;
use vstd::utf8::encode_utf8;

verus! {

/// The two mutually exclusive run modes.
#[derive(Debug, Clone, Copy, PartialEq, Eq, Structural)]
pub enum Mode {
    /// Run the fetch, normalize, reconcile pipeline once and exit.
    Push,
    /// Bind a listener and serve a freshly generated script to every
    /// accepted connection.
    Serve,
}

/// The startup decision: push mode exactly when no listen port is
/// configured.
pub fn select_mode(server_port: &str) -> (m: Mode)
    ensures
        m == Mode::Push <==> server_port@.len() == 0,
{
    if server_port.is_empty() {
        Mode::Push
    } else {
        Mode::Serve
    }
}

/// The complete answer for one accepted connection, as a function of the
/// endpoint list fetched for that very connection: the normalized
/// addresses rendered as a script and wrapped in the HTTP response.
pub open spec fn served_response_of(endpoints: Seq<Seq<char>>, list_name: Seq<char>) -> Seq<
    char,
> {
    let script = script_of(dedup_addresses(endpoints), list_name);
    http_response_of(script, (encode_utf8(script).len() as usize) as nat)
}

/// Builds the response for one accepted connection. Nothing but this
/// connection's own fetch enters the result: serving the same list name
/// twice answers each connection from the directory state fetched for it,
/// never from a cached value of a prior connection.
pub fn serve_response(endpoints: &Vec<String>, list_name: &str) -> (r: String)
    ensures
        r@ == served_response_of(endpoints.deep_view(), list_name@),
{
    let ips = remove_ports_and_distinct_ips(endpoints);
    let script = generate_mikrotik_rsc(ips, list_name);
    http_response(script.as_str())
}

} // verus!
