//! Normalization of directory endpoints: strip the port from each
//! `address:port` string and deduplicate the resulting bare addresses.

use vstd::prelude::*;
use vstd::string::*;

verus! {

/// Whether the character sequence contains a colon anywhere.
pub open spec fn has_colon(s: Seq<char>) -> bool {
    exists|i: int| 0 <= i < s.len() && s[i] == ':'
}

/// Index of the first colon at or after position `i` (or the first
/// out-of-range position if there is none).
pub open spec fn first_colon_from(s: Seq<char>, i: int) -> int
    decreases s.len() - i,
{
    if i < 0 || i >= s.len() {
        i
    } else if s[i] == ':' {
        i
    } else {
        first_colon_from(s, i + 1)
    }
}

/// The address part of an `address:port` endpoint string: the characters
/// before the first colon. A malformed entry without any colon normalizes
/// to the empty string.
pub open spec fn address_of(s: Seq<char>) -> Seq<char> {
    if has_colon(s) {
        s.take(first_colon_from(s, 0))
    } else {
        Seq::empty()
    }
}

proof fn lemma_first_colon_from_exact(s: Seq<char>, i: int, k: int)
    requires
        0 <= i <= k < s.len(),
        s[k] == ':',
        forall|j: int| i <= j < k ==> s[j] != ':',
    ensures
        first_colon_from(s, i) == k,
    decreases k - i,
{
    if i < k {
        lemma_first_colon_from_exact(s, i + 1, k);
    }
}

/// If `k` is the first colon of `s`, the address is exactly the prefix
/// before `k`.
pub proof fn lemma_address_of_at(s: Seq<char>, k: int)
    requires
        0 <= k < s.len(),
        s[k] == ':',
        forall|j: int| 0 <= j < k ==> s[j] != ':',
    ensures
        address_of(s) == s.take(k),
{
    lemma_first_colon_from_exact(s, 0, k);
}

/// An address never contains a colon: it either ends before the first
/// colon of the endpoint, or is empty.
pub proof fn lemma_address_has_no_colon(s: Seq<char>)
    ensures
        forall|j: int| 0 <= j < address_of(s).len() ==> address_of(s)[j] != ':',
{
    if has_colon(s) {
        let k = first_colon_from(s, 0);
        lemma_first_colon_from_least(s, 0);
    }
}

proof fn lemma_first_colon_from_least(s: Seq<char>, i: int)
    requires
        0 <= i <= s.len(),
    ensures
        i <= first_colon_from(s, i) <= s.len(),
        forall|j: int| i <= j < first_colon_from(s, i) ==> s[j] != ':',
        first_colon_from(s, i) < s.len() ==> s[first_colon_from(s, i)] == ':',
        has_colon(s) && (forall|j: int| 0 <= j < i ==> s[j] != ':') ==> first_colon_from(
            s,
            i,
        ) < s.len(),
    decreases s.len() - i,
{
    if i < s.len() && s[i] != ':' {
        lemma_first_colon_from_least(s, i + 1);
    }
}

/// Strips the port suffix of one endpoint string.
pub fn endpoint_address(endpoint: &str) -> (r: String)
    ensures
        r@ == address_of(endpoint@),
{
    let n = endpoint.unicode_len();
    let mut i: usize = 0;
    while i < n
        invariant
            n == endpoint@.len(),
            0 <= i <= n,
            forall|j: int| 0 <= j < i ==> endpoint@[j] != ':',
        decreases n - i,
    {
        if endpoint.get_char(i) == ':' {
            proof {
                lemma_address_of_at(endpoint@, i as int);
            }
            let prefix = endpoint.substring_char(0, i);
            return prefix.to_owned();
        }
        i += 1;
    }
    proof {
        assert(!has_colon(endpoint@));
    }
    String::new()
}

/// The deduplicated address sequence for a list of endpoints: addresses in
/// order of first occurrence, each kept once.
pub open spec fn dedup_addresses(endpoints: Seq<Seq<char>>) -> Seq<Seq<char>>
    decreases endpoints.len(),
{
    if endpoints.len() == 0 {
        Seq::empty()
    } else {
        let prev = dedup_addresses(endpoints.drop_last());
        let a = address_of(endpoints.last());
        if prev.contains(a) {
            prev
        } else {
            prev.push(a)
        }
    }
}

/// The set of addresses a list of endpoints normalizes to.
pub open spec fn normalized_set(endpoints: Seq<Seq<char>>) -> Set<Seq<char>> {
    Set::new(
        |a: Seq<char>|
            exists|i: int| 0 <= i < endpoints.len() && address_of(#[trigger] endpoints[i]) == a,
    )
}

proof fn lemma_dedup_members_rec(endpoints: Seq<Seq<char>>)
    ensures
        forall|x: Seq<char>| #[trigger] dedup_addresses(endpoints).contains(x)
            <==> normalized_set(endpoints).contains(x),
    decreases endpoints.len(),
{
    if endpoints.len() > 0 {
        let dl = endpoints.drop_last();
        lemma_dedup_members_rec(dl);
        let d = dedup_addresses(endpoints);
        let prev = dedup_addresses(dl);
        let a = address_of(endpoints.last());
        assert forall|x: Seq<char>| #[trigger] d.contains(x) implies normalized_set(
            endpoints,
        ).contains(x) by {
            if prev.contains(x) {
                assert(normalized_set(dl).contains(x));
                let i = choose|i: int|
                    0 <= i < dl.len() && address_of(#[trigger] dl[i]) == x;
                assert(address_of(endpoints[i]) == x);
            } else {
                assert(x == a);
                assert(address_of(endpoints[endpoints.len() - 1]) == a);
            }
        }
        assert forall|x: Seq<char>| normalized_set(endpoints).contains(x) implies #[trigger] d.contains(
            x,
        ) by {
            let i = choose|i: int|
                0 <= i < endpoints.len() && address_of(#[trigger] endpoints[i]) == x;
            if i < endpoints.len() - 1 {
                assert(address_of(dl[i]) == x);
                assert(normalized_set(dl).contains(x));
                assert(prev.contains(x));
                let m = choose|m: int| 0 <= m < prev.len() && #[trigger] prev[m] == x;
                assert(d[m] == x);
            } else {
                assert(x == a);
                if prev.contains(a) {
                    let m = choose|m: int| 0 <= m < prev.len() && #[trigger] prev[m] == a;
                    assert(d[m] == a);
                } else {
                    assert(d[prev.len() as int] == a);
                }
            }
        }
    } else {
        assert forall|x: Seq<char>| normalized_set(endpoints).contains(x) implies #[trigger] dedup_addresses(
            endpoints,
        ).contains(x) by {}
    }
}

/// Normalization yields no duplicate addresses, no member ever contains a
/// colon (so no port suffix survives), and the members are exactly the
/// normalized set of the input endpoints.
pub proof fn lemma_normalize_properties(endpoints: Seq<Seq<char>>)
    ensures
        forall|i: int, j: int|
            0 <= i < j < dedup_addresses(endpoints).len() ==> dedup_addresses(endpoints)[i]
                != dedup_addresses(endpoints)[j],
        forall|i: int, c: int|
            0 <= i < dedup_addresses(endpoints).len() && 0 <= c < dedup_addresses(
                endpoints,
            )[i].len() ==> dedup_addresses(endpoints)[i][c] != ':',
        dedup_addresses(endpoints).to_set() == normalized_set(endpoints),
    decreases endpoints.len(),
{
    lemma_dedup_members_rec(endpoints);
    if endpoints.len() == 0 {
        assert(dedup_addresses(endpoints).to_set() =~= normalized_set(endpoints));
    } else {
        let dl = endpoints.drop_last();
        lemma_normalize_properties(dl);
        let d = dedup_addresses(endpoints);
        let prev = dedup_addresses(dl);
        let a = address_of(endpoints.last());
        lemma_address_has_no_colon(endpoints.last());
        if !prev.contains(a) {
            assert forall|i: int, j: int| 0 <= i < j < d.len() implies d[i] != d[j] by {
                if j == prev.len() as int {
                    assert(prev[i] == d[i]);
                }
            }
        }
        assert(dedup_addresses(endpoints).to_set() =~= normalized_set(endpoints));
    }
}

/// The normalized address set does not depend on the order of the input
/// list: two endpoint lists that are permutations of one another normalize
/// to the same set.
pub proof fn lemma_normalized_set_order_irrelevant(a: Seq<Seq<char>>, b: Seq<Seq<char>>)
    requires
        a.to_multiset() == b.to_multiset(),
    ensures
        normalized_set(a) == normalized_set(b),
{
    broadcast use vstd::seq_lib::group_to_multiset_ensures;

    assert forall|x: Seq<char>| normalized_set(a).contains(x) implies normalized_set(
        b,
    ).contains(x) by {
        let i = choose|i: int| 0 <= i < a.len() && address_of(#[trigger] a[i]) == x;
        assert(a.contains(a[i]));
        assert(a.to_multiset().count(a[i]) > 0);
        assert(b.to_multiset().count(a[i]) > 0);
        assert(b.contains(a[i]));
        let j = choose|j: int| 0 <= j < b.len() && #[trigger] b[j] == a[i];
        assert(address_of(b[j]) == x);
    }
    assert forall|x: Seq<char>| normalized_set(b).contains(x) implies normalized_set(
        a,
    ).contains(x) by {
        let i = choose|i: int| 0 <= i < b.len() && address_of(#[trigger] b[i]) == x;
        assert(b.contains(b[i]));
        assert(b.to_multiset().count(b[i]) > 0);
        assert(a.to_multiset().count(b[i]) > 0);
        assert(a.contains(b[i]));
        let j = choose|j: int| 0 <= j < a.len() && #[trigger] a[j] == b[i];
        assert(address_of(a[j]) == x);
    }
    assert(normalized_set(a) =~= normalized_set(b));
}

fn contains_string(v: &Vec<String>, x: &String) -> (r: bool)
    ensures
        r == v.deep_view().contains(x@),
{
    let mut k: usize = 0;
    while k < v.len()
        invariant
            0 <= k <= v@.len(),
            forall|j: int| 0 <= j < k ==> v.deep_view()[j] != x@,
        decreases v@.len() - k,
    {
        if v[k].eq(x) {
            assert(v.deep_view()[k as int] == x@);
            return true;
        }
        k += 1;
    }
    assert(forall|j: int| 0 <= j < v.deep_view().len() ==> v.deep_view()[j] != x@);
    false
}

/// Normalizes a fetched endpoint list into the deduplicated bare-address
/// list, in order of first occurrence.
pub fn remove_ports_and_distinct_ips(ip_ports: &Vec<String>) -> (r: Vec<String>)
    ensures
        r.deep_view() == dedup_addresses(ip_ports.deep_view()),
{
    let ghost all = ip_ports.deep_view();
    let mut out: Vec<String> = Vec::new();
    let mut i: usize = 0;
    proof {
        assert(all.take(0) =~= Seq::<Seq<char>>::empty());
    }
    while i < ip_ports.len()
        invariant
            all == ip_ports.deep_view(),
            0 <= i <= all.len(),
            out.deep_view() == dedup_addresses(all.take(i as int)),
        decreases all.len() - i,
    {
        let a = endpoint_address(ip_ports[i].as_str());
        proof {
            assert(all.take(i + 1).drop_last() =~= all.take(i as int));
            assert(all.take(i + 1).last() == all[i as int]);
        }
        if !contains_string(&out, &a) {
            let ghost before = out.deep_view();
            out.push(a);
            proof {
                assert(out.deep_view() =~= before.push(address_of(all[i as int])));
            }
        }
        i += 1;
    }
    proof {
        assert(all.take(all.len() as int) =~= all);
    }
    out
}

} // verus!
