use cf_ddns::ip::{is_ipv4, is_ipv6, is_literal, IpFamily};
use cf_ddns::resolver::{candidate, interpret_body, next_step, services, ResolveStep};

#[test]
fn ipv4_literals() {
    assert!(is_ipv4("1.2.3.4"));
    assert!(is_ipv4("0.0.0.0"));
    assert!(is_ipv4("255.255.255.255"));
    assert!(!is_ipv4("256.1.1.1"));
    assert!(!is_ipv4("01.2.3.4"));
    assert!(!is_ipv4("1.2.3"));
    assert!(!is_ipv4("1.2.3.4.5"));
    assert!(!is_ipv4("1..3.4"));
    assert!(!is_ipv4("1.2.3.4 "));
    assert!(!is_ipv4(""));
    assert!(!is_ipv4("::1"));
}

#[test]
fn ipv6_literals() {
    assert!(is_ipv6("2001:db8::1"));
    assert!(is_ipv6("::"));
    assert!(is_ipv6("::1"));
    assert!(is_ipv6("1::"));
    assert!(is_ipv6("1:2:3:4:5:6:7:8"));
    assert!(is_ipv6("FE80::ABCD:12"));
    assert!(!is_ipv6("1:2:3:4:5:6:7:8:9"));
    assert!(!is_ipv6("1:2:3:4:5:6:7::8"));
    assert!(!is_ipv6("1:2:3:4:5:6:7"));
    assert!(!is_ipv6(":1::"));
    assert!(!is_ipv6("1:"));
    assert!(!is_ipv6("1::2::3"));
    assert!(!is_ipv6(":::"));
    assert!(!is_ipv6("12345::"));
    assert!(!is_ipv6("g::1"));
    assert!(!is_ipv6("1.2.3.4"));
    assert!(!is_ipv6(""));
}

#[test]
fn literal_checks_family() {
    assert!(is_literal("1.2.3.4", IpFamily::V4));
    assert!(!is_literal("1.2.3.4", IpFamily::V6));
    assert!(is_literal("2001:db8::1", IpFamily::V6));
    assert!(!is_literal("2001:db8::1", IpFamily::V4));
}

#[test]
fn candidate_prefers_json_field() {
    assert_eq!(candidate(Some("1.2.3.4".to_string()), "x", IpFamily::V4), Some("1.2.3.4".to_string()));
    assert_eq!(candidate(Some("nope".to_string()), "1.2.3.4", IpFamily::V4), None);
    assert_eq!(candidate(None, "1.2.3.4", IpFamily::V4), Some("1.2.3.4".to_string()));
    assert_eq!(candidate(None, "1.2.3.4", IpFamily::V6), None);
}

#[test]
fn body_json_form() {
    assert_eq!(interpret_body("{\"ip\":\"1.2.3.4\"}", IpFamily::V4), Some("1.2.3.4".to_string()));
    assert_eq!(
        interpret_body("{\"ip\": \"2001:db8::7\", \"country\": \"NL\"}", IpFamily::V6),
        Some("2001:db8::7".to_string())
    );
    assert_eq!(interpret_body("{\"ip\":\"not an ip\"}", IpFamily::V4), None);
}

#[test]
fn body_bare_text_is_trimmed() {
    assert_eq!(interpret_body("  5.6.7.8\n", IpFamily::V4), Some("5.6.7.8".to_string()));
    assert_eq!(interpret_body("2001:db8::1\n", IpFamily::V6), Some("2001:db8::1".to_string()));
}

#[test]
fn body_of_wrong_family_rejected() {
    assert_eq!(interpret_body("5.6.7.8\n", IpFamily::V6), None);
    assert_eq!(interpret_body("{\"ip\":\"5.6.7.8\"}", IpFamily::V6), None);
    assert_eq!(interpret_body("<html>error</html>", IpFamily::V4), None);
}

#[test]
fn service_chains() {
    let v4 = services(IpFamily::V4);
    assert_eq!(v4.len(), 4);
    assert_eq!(v4[0], "https://api.ipify.org?format=json");
    assert_eq!(v4[3], "https://checkip.amazonaws.com");
    let v6 = services(IpFamily::V6);
    assert_eq!(v6.len(), 3);
    assert_eq!(v6[2], "https://v6.ident.me");
}

#[test]
fn resolve_starts_with_first_service() {
    let chain = services(IpFamily::V4);
    assert!(matches!(next_step(IpFamily::V4, &chain, &vec![]), ResolveStep::Fetch(0)));
}

#[test]
fn resolve_falls_back_in_order_and_short_circuits() {
    let chain = services(IpFamily::V4);
    let mut responses: Vec<Option<String>> = vec![None];
    assert!(matches!(next_step(IpFamily::V4, &chain, &responses), ResolveStep::Fetch(1)));
    responses.push(Some("bad gateway".to_string()));
    assert!(matches!(next_step(IpFamily::V4, &chain, &responses), ResolveStep::Fetch(2)));
    responses.push(Some("9.9.9.9\n".to_string()));
    match next_step(IpFamily::V4, &chain, &responses) {
        ResolveStep::Resolved(a) => {
            assert_eq!(a.ip, "9.9.9.9");
            assert_eq!(a.service, chain[2]);
        }
        other => panic!("expected a resolution, got {:?}", other),
    }
    // A fourth answer changes nothing: the third service decided.
    responses.push(Some("8.8.8.8".to_string()));
    match next_step(IpFamily::V4, &chain, &responses) {
        ResolveStep::Resolved(a) => assert_eq!(a.ip, "9.9.9.9"),
        other => panic!("expected a resolution, got {:?}", other),
    }
}

#[test]
fn resolve_all_services_failed() {
    let chain = services(IpFamily::V4);
    let responses: Vec<Option<String>> =
        vec![None, Some("oops".to_string()), None, Some("{\"ip\":\"::1\"}".to_string())];
    assert!(matches!(next_step(IpFamily::V4, &chain, &responses), ResolveStep::AllServicesFailed));
    let v6 = services(IpFamily::V6);
    assert!(matches!(
        next_step(IpFamily::V6, &v6, &vec![None, None, None]),
        ResolveStep::AllServicesFailed
    ));
}

#[test]
fn resolve_empty_chain_fails() {
    assert!(matches!(next_step(IpFamily::V4, &vec![], &vec![]), ResolveStep::AllServicesFailed));
}
