//! The device side of reconciliation: the REST endpoints of the address
//! list, the decode of an enumerate answer, and the per-item outcome
//! reports of the delete and insert batches.

use crate::http::{dec_digits, decimal_string};
use crate::json::json_document;
use vstd::prelude::*;
use vstd::string::*;

verus! {

/// One desired entry to insert: an address, scoped to a list name.
#[derive(Debug, Clone)]
pub struct IpListItem {
    pub address: String,
    pub list: String,
}

/// What an enumerate body decoded to.
#[derive(Debug)]
pub enum EnumerateDecode {
    /// The body is not JSON at all.
    Malformed,
    /// Valid JSON, but not an array of entries: there is nothing to
    /// delete.
    NotAList,
    /// The device-assigned id of every returned entry, in the order
    /// returned; an entry without a string `.id` is read as an empty id.
    Entries(Vec<String>),
}

/// The query that enumerates the entries of one list.
pub fn list_query_url(device: &str, list_name: &str) -> (r: String)
    ensures
        r@ == "https://"@ + device@ + "/rest/ip/firewall/address-list?list="@ + list_name@,
{
    let mut s = String::new();
    s.append("https://");
    s.append(device);
    s.append("/rest/ip/firewall/address-list?list=");
    s.append(list_name);
    proof {
        assert(s@ =~= "https://"@ + device@ + "/rest/ip/firewall/address-list?list="@
            + list_name@);
    }
    s
}

/// The endpoint that deletes one entry by its device-assigned id.
pub fn delete_url(device: &str, id: &str) -> (r: String)
    ensures
        r@ == "https://"@ + device@ + "/rest/ip/firewall/address-list/"@ + id@,
{
    let mut s = String::new();
    s.append("https://");
    s.append(device);
    s.append("/rest/ip/firewall/address-list/");
    s.append(id);
    proof {
        assert(s@ =~= "https://"@ + device@ + "/rest/ip/firewall/address-list/"@ + id@);
    }
    s
}

/// The endpoint that inserts one entry.
pub fn insert_url(device: &str) -> (r: String)
    ensures
        r@ == "https://"@ + device@ + "/rest/ip/firewall/address-list"@,
{
    let mut s = String::new();
    s.append("https://");
    s.append(device);
    s.append("/rest/ip/firewall/address-list");
    proof {
        assert(s@ =~= "https://"@ + device@ + "/rest/ip/firewall/address-list"@);
    }
    s
}

/// The entry ids a JSON enumerate body holds: when the body is a
/// top-level array, the `.id` member of each element as a string, in
/// order, an absent or non-string `.id` read as an empty id; None when
/// the body is not an array. Named, not defined: it is a function of the
/// body text alone, and the trusted reader below states its result with
/// it.
pub uninterp spec fn entry_ids_of(body: Seq<char>) -> Option<Seq<Seq<char>>>;

/// Relies on serde_json::from_str::<Value>, Value::as_array, Value::get
/// and Value::as_str: parses the body and reads each array element's
/// `.id` string. None when the body is not JSON; otherwise the ids
/// exactly as `entry_ids_of` names them.
#[verifier::external_body]
fn read_entry_ids(body: &str) -> (r: Option<Option<Vec<String>>>)
    ensures
        r is Some <==> json_document(body@),
        r matches Some(found) ==> found.deep_view() == entry_ids_of(body@),
{
    match serde_json::from_str::<serde_json::Value>(body) {
        Err(_) => None,
        Ok(v) => Some(v.as_array().map(|a| {
            a.iter()
                .map(|e| e.get(".id").and_then(|f| f.as_str()).unwrap_or_default().to_owned())
                .collect()
        })),
    }
}

/// Decodes the body of an enumerate answer into the ids to delete, and
/// tells the three cases apart exactly: not JSON, JSON that is not an
/// entry array, or the named ids themselves.
pub fn decode_address_list(body: &str) -> (r: EnumerateDecode)
    ensures
        match r {
            EnumerateDecode::Malformed => !json_document(body@),
            EnumerateDecode::NotAList => json_document(body@) && entry_ids_of(body@) is None,
            EnumerateDecode::Entries(ids) => json_document(body@) && (entry_ids_of(
                body@,
            ) matches Some(l) && ids.deep_view() == l),
        },
{
    match read_entry_ids(body) {
        None => EnumerateDecode::Malformed,
        Some(None) => EnumerateDecode::NotAList,
        Some(Some(ids)) => EnumerateDecode::Entries(ids),
    }
}

/// What one delete or insert request came back with.
#[derive(Debug, Clone)]
pub enum ItemOutcome {
    /// The device answered, with this status code and body.
    Response { status: u16, body: String },
    /// The request itself failed, with this description.
    RequestFailed { message: String },
}

/// Success of an HTTP status code.
pub open spec fn is_success_status(status: u16) -> bool {
    200 <= status < 300
}

/// The operator-facing report for one outcome: None for a success, the
/// exact log line for a failure.
pub open spec fn report_of(o: ItemOutcome) -> Option<Seq<char>> {
    match o {
        ItemOutcome::Response { status, body } => if is_success_status(status) {
            None
        } else {
            Some("MIKROTIK ERROR: "@ + dec_digits(status as nat) + " "@ + body@)
        },
        ItemOutcome::RequestFailed { message } => Some("Request failed: "@ + message@),
    }
}

/// The reports of a whole batch, failures only, in batch order.
pub open spec fn reports_of(outcomes: Seq<ItemOutcome>) -> Seq<Seq<char>>
    decreases outcomes.len(),
{
    if outcomes.len() == 0 {
        Seq::empty()
    } else {
        reports_of(outcomes.drop_last()) + match report_of(outcomes.last()) {
            Some(m) => seq![m],
            None => Seq::empty(),
        }
    }
}

fn report_one(o: &ItemOutcome) -> (r: Option<String>)
    ensures
        match report_of(*o) {
            Some(m) => r matches Some(s) && s@ == m,
            None => r is None,
        },
{
    match o {
        ItemOutcome::Response { status, body } => {
            if 200 <= *status && *status < 300 {
                None
            } else {
                let mut s = String::new();
                s.append("MIKROTIK ERROR: ");
                let digits = decimal_string(*status as u64);
                s.append(digits.as_str());
                s.append(" ");
                s.append(body.as_str());
                proof {
                    assert(s@ =~= "MIKROTIK ERROR: "@ + dec_digits(*status as nat) + " "@
                        + body@);
                }
                Some(s)
            }
        },
        ItemOutcome::RequestFailed { message } => {
            let mut s = String::new();
            s.append("Request failed: ");
            s.append(message.as_str());
            proof {
                assert(s@ =~= "Request failed: "@ + message@);
            }
            Some(s)
        },
    }
}

/// Turns the outcomes of one delete or insert batch into the exact
/// failure reports to log. A failed item yields its report and nothing
/// else: no outcome aborts the evaluation of the others.
pub fn failure_reports(outcomes: &Vec<ItemOutcome>) -> (r: Vec<String>)
    ensures
        r.deep_view() == reports_of(outcomes@),
{
    let mut out: Vec<String> = Vec::new();
    let mut i: usize = 0;
    proof {
        assert(outcomes@.take(0) =~= Seq::<ItemOutcome>::empty());
    }
    while i < outcomes.len()
        invariant
            0 <= i <= outcomes@.len(),
            out.deep_view() == reports_of(outcomes@.take(i as int)),
        decreases outcomes@.len() - i,
    {
        let ghost before = out.deep_view();
        match report_one(&outcomes[i]) {
            Some(m) => {
                out.push(m);
            },
            None => {},
        }
        proof {
            assert(outcomes@.take(i + 1).drop_last() =~= outcomes@.take(i as int));
            assert(outcomes@.take(i + 1).last() == outcomes@[i as int]);
            assert(out.deep_view() =~= reports_of(outcomes@.take(i as int + 1)));
        }
        i += 1;
    }
    proof {
        assert(outcomes@.take(outcomes@.len() as int) =~= outcomes@);
    }
    out
}

} // verus!
