use container_gateway::config::Config;
use container_gateway::text::{decimal_string, parse_decimal_u16};

fn some(text: &str) -> Option<String> {
    Some(text.to_string())
}

#[test]
fn config_is_built_from_three_settings() {
    assert_eq!(
        Config::from_env(some("registry.example.com"), some("team/app"), some("8080")),
        Config {
            registry: "registry.example.com".to_string(),
            repository: "team/app".to_string(),
            port: 8080,
        }
    );
}

#[test]
fn config_reads_the_port_as_a_decimal_number() {
    assert_eq!(Config::from_env(some("r"), some("app"), some("+0080")).port, 80);
    assert_eq!(Config::from_env(some("r"), some("app"), some("65535")).port, 65535);
    assert_eq!(Config::from_env(some("r"), some("app"), some("0")).port, 0);
}

#[test]
fn config_keeps_empty_names() {
    assert_eq!(
        Config::from_env(some(""), some(""), some("0")),
        Config { registry: String::new(), repository: String::new(), port: 0 }
    );
}

#[test]
fn port_that_is_no_number_is_told_before_a_config_is_built() {
    // What the caller tests before it builds a configuration.
    for port in ["", "http", "65536", "-1", "80a", " 80"] {
        assert_eq!(parse_decimal_u16(port), None, "{:?}", port);
    }
}

#[test]
fn image_reference_joins_registry_repository_and_tag() {
    let config = Config {
        registry: "123456789012.dkr.ecr.ap-northeast-1.amazonaws.com".to_string(),
        repository: "team/app".to_string(),
        port: 3000,
    };
    assert_eq!(
        config.image_reference("abcf123"),
        "123456789012.dkr.ecr.ap-northeast-1.amazonaws.com/team/app:abcf123"
    );
    assert_eq!(
        config.image_reference("feature-1a"),
        "123456789012.dkr.ecr.ap-northeast-1.amazonaws.com/team/app:feature-1a"
    );
}

#[test]
fn image_reference_with_empty_parts() {
    let config = Config { registry: String::new(), repository: String::new(), port: 1 };
    assert_eq!(config.image_reference(""), "/:");
    assert_eq!(config.image_reference("a"), "/:a");
}

#[test]
fn port_parses_plain_decimal() {
    assert_eq!(parse_decimal_u16("0"), Some(0));
    assert_eq!(parse_decimal_u16("7"), Some(7));
    assert_eq!(parse_decimal_u16("80"), Some(80));
    assert_eq!(parse_decimal_u16("8080"), Some(8080));
    assert_eq!(parse_decimal_u16("65535"), Some(65535));
}

#[test]
fn port_parses_plus_sign_and_leading_zeros() {
    assert_eq!(parse_decimal_u16("+80"), Some(80));
    assert_eq!(parse_decimal_u16("0080"), Some(80));
    assert_eq!(parse_decimal_u16("+000"), Some(0));
    assert_eq!(parse_decimal_u16("000000000000000000000065535"), Some(65535));
}

#[test]
fn port_rejects_what_does_not_fit() {
    assert_eq!(parse_decimal_u16("65536"), None);
    assert_eq!(parse_decimal_u16("70000"), None);
    assert_eq!(parse_decimal_u16("655350"), None);
    assert_eq!(parse_decimal_u16("99999999999999999999999999"), None);
}

#[test]
fn port_rejects_what_is_no_number() {
    assert_eq!(parse_decimal_u16(""), None);
    assert_eq!(parse_decimal_u16("+"), None);
    assert_eq!(parse_decimal_u16("++1"), None);
    assert_eq!(parse_decimal_u16("-1"), None);
    assert_eq!(parse_decimal_u16("-0"), None);
    assert_eq!(parse_decimal_u16(" 80"), None);
    assert_eq!(parse_decimal_u16("80 "), None);
    assert_eq!(parse_decimal_u16("8_0"), None);
    assert_eq!(parse_decimal_u16("80a"), None);
    assert_eq!(parse_decimal_u16("0x50"), None);
    assert_eq!(parse_decimal_u16("8+0"), None);
    assert_eq!(parse_decimal_u16("٨٠"), None);
    assert_eq!(parse_decimal_u16("70000x"), None);
}

#[test]
fn port_parses_as_the_standard_library_does() {
    let texts = [
        "", "+", "-", "0", "+0", "-0", "1", "65535", "65536", "+65535", "00065535", "123456",
        "12a", " 1", "1 ", "1_0", "٣", "+-1", "4294967296",
    ];
    for text in texts {
        assert_eq!(parse_decimal_u16(text), text.parse::<u16>().ok(), "{:?}", text);
    }
}

#[test]
fn decimal_string_writes_without_leading_zeros() {
    assert_eq!(decimal_string(0), "0");
    assert_eq!(decimal_string(9), "9");
    assert_eq!(decimal_string(10), "10");
    assert_eq!(decimal_string(8080), "8080");
    assert_eq!(decimal_string(10000), "10000");
    assert_eq!(decimal_string(65535), "65535");
}

#[test]
fn decimal_string_and_parse_are_inverse() {
    let mut port: u16 = 0;
    loop {
        assert_eq!(parse_decimal_u16(&decimal_string(port)), Some(port));
        assert_eq!(decimal_string(port), port.to_string());
        if port == u16::MAX {
            break;
        }
        port += 1;
    }
}
