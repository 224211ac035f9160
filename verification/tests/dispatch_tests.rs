use steam_cm_sync::dispatch::{select_mode, serve_response, Mode};

fn strings(v: &[&str]) -> Vec<String> {
    v.iter().map(|s| s.to_string()).collect()
}

#[test]
fn empty_port_means_push_mode() {
    assert_eq!(select_mode(""), Mode::Push);
    assert_eq!(select_mode("8080"), Mode::Serve);
}

#[test]
fn each_connection_gets_the_script_of_its_own_fetch() {
    let first = serve_response(&strings(&["1.2.3.4:27017"]), "steam_cm");
    let second = serve_response(&strings(&["5.6.7.8:27017"]), "steam_cm");
    assert!(first.contains(":do {add address=1.2.3.4 list=steam_cm} on-error={}"));
    assert!(!first.contains("5.6.7.8"));
    assert!(second.contains(":do {add address=5.6.7.8 list=steam_cm} on-error={}"));
    assert!(!second.contains("1.2.3.4"));
}

#[test]
fn served_response_is_a_full_http_answer() {
    let body = "/log info \"Import steam ipv4 cm server list...\"\n\
                /ip firewall address-list remove [/ip firewall address-list find list=steam_cm]\n\
                /ip firewall address-list\n\
                :do {add address=1.2.3.4 list=steam_cm} on-error={}";
    let out = serve_response(&strings(&["1.2.3.4:27017", "1.2.3.4:27018"]), "steam_cm");
    assert_eq!(
        out,
        format!("HTTP/1.1 200 OK\r\nContent-Length: {}\r\n\r\n{}", body.len(), body)
    );
}
