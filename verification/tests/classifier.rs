use container_gateway::indexes::{index, HostHeader};
use container_gateway::response::{Failure, Status};
use container_gateway::utils::{get_subdomain, is_allowed_characters};

fn no_subdomain() -> Failure {
    Failure { status: Status::NotFound, message: "couldn't find subdomain".to_string() }
}

#[test]
fn allowed_characters_are_digits_hex_letters_and_hyphen() {
    assert!(is_allowed_characters("0123456789abcdef-".to_string()));
    assert!(is_allowed_characters("abcf123".to_string()));
    assert!(is_allowed_characters("-".to_string()));
}

#[test]
fn allowed_characters_of_empty_text() {
    assert!(is_allowed_characters(String::new()));
}

#[test]
fn allowed_characters_stop_at_the_charset_boundaries() {
    // One below and one above each accepted range.
    assert!(!is_allowed_characters("/".to_string()));
    assert!(!is_allowed_characters(":".to_string()));
    assert!(!is_allowed_characters("`".to_string()));
    assert!(!is_allowed_characters("g".to_string()));
    assert!(!is_allowed_characters(",".to_string()));
    assert!(!is_allowed_characters(".".to_string()));
}

#[test]
fn allowed_characters_reject_uppercase_and_other_scripts() {
    assert!(!is_allowed_characters("ABCDEF".to_string()));
    assert!(!is_allowed_characters("abcF123".to_string()));
    assert!(!is_allowed_characters("abc_123".to_string()));
    assert!(!is_allowed_characters("é".to_string()));
    assert!(!is_allowed_characters("١٢٣".to_string()));
}

#[test]
fn allowed_characters_reject_one_bad_character_anywhere() {
    assert!(!is_allowed_characters("xabc".to_string()));
    assert!(!is_allowed_characters("abxc".to_string()));
    assert!(!is_allowed_characters("abcx".to_string()));
}

#[test]
fn subdomain_is_what_stands_before_the_first_dot() {
    assert_eq!(get_subdomain("abcf123.example.com".to_string()), Ok("abcf123".to_string()));
    assert_eq!(get_subdomain("a.b.c".to_string()), Ok("a".to_string()));
    assert_eq!(get_subdomain("tag.".to_string()), Ok("tag".to_string()));
}

#[test]
fn subdomain_is_taken_without_looking_at_its_characters() {
    assert_eq!(get_subdomain("Not A Tag!.example.com".to_string()), Ok("Not A Tag!".to_string()));
    assert_eq!(get_subdomain("héllo.wörld".to_string()), Ok("héllo".to_string()));
    assert_eq!(get_subdomain("日本語.example".to_string()), Ok("日本語".to_string()));
}

#[test]
fn subdomain_may_be_empty() {
    assert_eq!(get_subdomain(".example.com".to_string()), Ok(String::new()));
    assert_eq!(get_subdomain(".".to_string()), Ok(String::new()));
}

#[test]
fn subdomain_of_host_without_dot_is_not_found() {
    assert_eq!(get_subdomain("localhost".to_string()), Err(no_subdomain()));
    assert_eq!(get_subdomain("abcf123".to_string()), Err(no_subdomain()));
    assert_eq!(get_subdomain(String::new()), Err(no_subdomain()));
}

#[test]
fn not_found_failure_has_status_404() {
    let failure = get_subdomain("localhost".to_string()).unwrap_err();
    assert_eq!(failure.status.code(), 404);
    assert_eq!(Status::InternalServerError.code(), 500);
}

#[test]
fn guard_passes_host_that_selects_a_tag() {
    assert_eq!(
        HostHeader::from_request(Some("abcf123.example.com")),
        Some(HostHeader("abcf123.example.com".to_string()))
    );
    assert_eq!(
        HostHeader::from_request(Some("0-9a-f.example.com:8000")),
        Some(HostHeader("0-9a-f.example.com:8000".to_string()))
    );
}

#[test]
fn guard_forwards_request_without_host() {
    assert_eq!(HostHeader::from_request(None), None);
}

#[test]
fn guard_forwards_host_without_dot() {
    assert_eq!(HostHeader::from_request(Some("localhost")), None);
    assert_eq!(HostHeader::from_request(Some("abcf123")), None);
    assert_eq!(HostHeader::from_request(Some("")), None);
}

#[test]
fn guard_forwards_empty_label() {
    assert_eq!(HostHeader::from_request(Some(".example.com")), None);
}

#[test]
fn guard_forwards_label_outside_the_charset() {
    assert_eq!(HostHeader::from_request(Some("www.example.com")), None);
    assert_eq!(HostHeader::from_request(Some("abcg.example.com")), None);
    assert_eq!(HostHeader::from_request(Some("ABC.example.com")), None);
    assert_eq!(HostHeader::from_request(Some("abc_1.example.com")), None);
    assert_eq!(HostHeader::from_request(Some("abc:80.example.com")), None);
}

#[test]
fn guard_looks_at_the_leading_label_only() {
    assert_eq!(
        HostHeader::from_request(Some("abc.EXAMPLE.com")),
        Some(HostHeader("abc.EXAMPLE.com".to_string()))
    );
}

#[test]
fn fallback_body_text() {
    assert_eq!(index(), "Could you please specify a docker tag.");
}

#[test]
fn failures_are_built_with_their_status() {
    assert_eq!(
        Failure::not_found("gone"),
        Failure { status: Status::NotFound, message: "gone".to_string() }
    );
    assert_eq!(
        Failure::internal_error("broken".to_string()),
        Failure { status: Status::InternalServerError, message: "broken".to_string() }
    );
    assert_eq!(Status::NotFound.code(), 404);
}
