use steam_cm_sync::normalize::{endpoint_address, remove_ports_and_distinct_ips};

fn strings(v: &[&str]) -> Vec<String> {
    v.iter().map(|s| s.to_string()).collect()
}

#[test]
fn duplicate_addresses_collapse() {
    let input = strings(&["1.2.3.4:27017", "1.2.3.4:27018", "5.6.7.8:27017"]);
    let out = remove_ports_and_distinct_ips(&input);
    assert_eq!(out.len(), 2);
    assert!(out.contains(&"1.2.3.4".to_string()));
    assert!(out.contains(&"5.6.7.8".to_string()));
}

#[test]
fn empty_input_normalizes_to_empty_set() {
    let input: Vec<String> = Vec::new();
    let out = remove_ports_and_distinct_ips(&input);
    assert!(out.is_empty());
}

#[test]
fn no_duplicates_and_no_ports_whatever_the_order() {
    let a = strings(&["9.9.9.9:443", "1.2.3.4:27017", "9.9.9.9:80", "1.2.3.4:27018"]);
    let b = strings(&["1.2.3.4:27018", "9.9.9.9:80", "1.2.3.4:27017", "9.9.9.9:443"]);
    let out_a = remove_ports_and_distinct_ips(&a);
    let out_b = remove_ports_and_distinct_ips(&b);
    for x in &out_a {
        assert!(!x.contains(':'));
    }
    for (i, x) in out_a.iter().enumerate() {
        for (j, y) in out_a.iter().enumerate() {
            if i != j {
                assert_ne!(x, y);
            }
        }
    }
    let mut sa = out_a.clone();
    let mut sb = out_b.clone();
    sa.sort();
    sb.sort();
    assert_eq!(sa, sb);
}

#[test]
fn malformed_entries_normalize_to_empty_string() {
    let input = strings(&["nocolon", "", "1.2.3.4:27017"]);
    let out = remove_ports_and_distinct_ips(&input);
    assert_eq!(out.len(), 2);
    assert!(out.contains(&"".to_string()));
    assert!(out.contains(&"1.2.3.4".to_string()));
}

#[test]
fn address_is_cut_at_the_first_colon() {
    assert_eq!(endpoint_address("1.2.3.4:27017"), "1.2.3.4");
    assert_eq!(endpoint_address("host:1:2"), "host");
    assert_eq!(endpoint_address(":27017"), "");
    assert_eq!(endpoint_address("plain"), "");
}
