use steam_cm_sync::directory::{
    decode_directory_response, directory_endpoints, directory_url, extract_serverlist,
    DirectoryDecode, DirectoryError,
};

#[test]
fn serverlist_is_read_from_the_fixed_path() {
    let body = "{\"response\":{\"serverlist\":[\"1.2.3.4:27017\",\"5.6.7.8:27017\"]}}";
    let out = decode_directory_response(true, body).unwrap();
    assert_eq!(out, vec!["1.2.3.4:27017".to_string(), "5.6.7.8:27017".to_string()]);
}

#[test]
fn non_success_status_degrades_to_empty() {
    let out = decode_directory_response(false, "{\"response\":{\"serverlist\":[\"1.2.3.4:1\"]}}");
    assert_eq!(out.unwrap(), Vec::<String>::new());
    let out = decode_directory_response(false, "not even json");
    assert_eq!(out.unwrap(), Vec::<String>::new());
}

#[test]
fn missing_path_degrades_to_empty() {
    assert_eq!(decode_directory_response(true, "{}").unwrap(), Vec::<String>::new());
    assert_eq!(
        decode_directory_response(true, "{\"response\":{}}").unwrap(),
        Vec::<String>::new()
    );
    assert_eq!(
        decode_directory_response(true, "{\"response\":{\"serverlist\":5}}").unwrap(),
        Vec::<String>::new()
    );
}

#[test]
fn malformed_body_is_a_hard_error() {
    let out = decode_directory_response(true, "not even json");
    assert_eq!(out.unwrap_err(), DirectoryError::MalformedBody);
}

#[test]
fn non_string_elements_read_as_empty_strings() {
    let out = decode_directory_response(true, "{\"response\":{\"serverlist\":[5,\"a:1\"]}}");
    assert_eq!(out.unwrap(), vec!["".to_string(), "a:1".to_string()]);
}

#[test]
fn extraction_tells_the_three_cases_apart() {
    assert!(matches!(extract_serverlist("garbage"), DirectoryDecode::MalformedBody));
    assert!(matches!(extract_serverlist("{}"), DirectoryDecode::PathMissing));
    match extract_serverlist("{\"response\":{\"serverlist\":[]}}") {
        DirectoryDecode::Servers(l) => assert!(l.is_empty()),
        other => panic!("expected an empty server list, got {:?}", other),
    }
}

#[test]
fn recovery_policy_is_total() {
    match directory_endpoints(true, DirectoryDecode::Servers(vec!["x:1".to_string()])) {
        Ok(l) => assert_eq!(l, vec!["x:1".to_string()]),
        Err(e) => panic!("unexpected error {:?}", e),
    }
    assert_eq!(directory_endpoints(true, DirectoryDecode::PathMissing).unwrap(), Vec::<String>::new());
    assert_eq!(
        directory_endpoints(true, DirectoryDecode::MalformedBody).unwrap_err(),
        DirectoryError::MalformedBody
    );
    assert_eq!(
        directory_endpoints(false, DirectoryDecode::MalformedBody).unwrap(),
        Vec::<String>::new()
    );
}

#[test]
fn directory_url_is_the_well_known_endpoint() {
    assert_eq!(
        directory_url(),
        "https://api.steampowered.com/ISteamDirectory/GetCMList/v1/?format=json&cellid=0"
    );
}
