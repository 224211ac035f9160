//! Rendering of the canonical address set as a RouterOS import script: a
//! header that logs the import and removes every existing entry of the
//! list, followed by one error-suppressing add directive per address.

use vstd::prelude::*;
use vstd::string::*;

verus! {

/// One "add if absent, ignore errors" directive for a single address,
/// scoped to the given list name.
pub open spec fn add_directive(ip: Seq<char>, list_name: Seq<char>) -> Seq<char> {
    ":do {add address="@ + ip + " list="@ + list_name + "} on-error={}"@
}

/// The script header: a log line, a remove-all command for the list name,
/// and the table the add directives apply to.
pub open spec fn script_header(list_name: Seq<char>) -> Seq<char> {
    "/log info \"Import steam ipv4 cm server list...\"\n/ip firewall address-list remove [/ip firewall address-list find list="@
        + list_name + "]\n/ip firewall address-list"@
}

/// The add directives for all addresses, joined by newlines.
pub open spec fn joined_directives(ips: Seq<Seq<char>>, list_name: Seq<char>) -> Seq<char>
    decreases ips.len(),
{
    if ips.len() == 0 {
        Seq::empty()
    } else if ips.len() == 1 {
        add_directive(ips[0], list_name)
    } else {
        joined_directives(ips.drop_last(), list_name) + "\n"@ + add_directive(
            ips.last(),
            list_name,
        )
    }
}

/// The whole script: header, newline, then the joined directives (nothing
/// after the newline when the address list is empty).
pub open spec fn script_of(ips: Seq<Seq<char>>, list_name: Seq<char>) -> Seq<char> {
    script_header(list_name) + "\n"@ + joined_directives(ips, list_name)
}

/// Renders the deduplicated address list as a RouterOS import script.
pub fn generate_mikrotik_rsc(distinct_ips: Vec<String>, list_name: &str) -> (r: String)
    ensures
        r@ == script_of(distinct_ips.deep_view(), list_name@),
{
    let ghost ips = distinct_ips.deep_view();
    let mut s = String::new();
    s.append(
        "/log info \"Import steam ipv4 cm server list...\"\n/ip firewall address-list remove [/ip firewall address-list find list=",
    );
    s.append(list_name);
    s.append("]\n/ip firewall address-list");
    proof {
        assert(s@ =~= script_header(list_name@));
    }
    s.append("\n");
    let mut i: usize = 0;
    while i < distinct_ips.len()
        invariant
            ips == distinct_ips.deep_view(),
            0 <= i <= ips.len(),
            s@ == script_header(list_name@) + "\n"@ + joined_directives(
                ips.take(i as int),
                list_name@,
            ),
        decreases ips.len() - i,
    {
        if i > 0 {
            s.append("\n");
        }
        s.append(":do {add address=");
        s.append(distinct_ips[i].as_str());
        s.append(" list=");
        s.append(list_name);
        s.append("} on-error={}");
        proof {
            assert(ips.take(i + 1).drop_last() =~= ips.take(i as int));
            assert(ips.take(i + 1).last() == ips[i as int]);
            assert(s@ =~= script_header(list_name@) + "\n"@ + joined_directives(
                ips.take(i as int + 1),
                list_name@,
            ));
        }
        i += 1;
    }
    proof {
        assert(ips.take(ips.len() as int) =~= ips);
    }
    s
}

} // verus!
