use upload_service::config::build_config;
use upload_service::config::parse_u64;
use upload_service::config::ConfigError;

fn bytes(s: &str) -> Vec<u8> {
    s.as_bytes().to_vec()
}

#[test]
fn parse_exact_values() {
    assert_eq!(parse_u64(&bytes("0")), Some(0));
    assert_eq!(parse_u64(&bytes("8080")), Some(8080));
    assert_eq!(parse_u64(&bytes("007")), Some(7));
    assert_eq!(parse_u64(&bytes("1048576")), Some(1048576));
    assert_eq!(parse_u64(&bytes("18446744073709551615")), Some(u64::MAX));
}

#[test]
fn parse_rejects_malformed() {
    assert_eq!(parse_u64(&bytes("")), None);
    assert_eq!(parse_u64(&bytes("12a")), None);
    assert_eq!(parse_u64(&bytes("-3")), None);
    assert_eq!(parse_u64(&bytes(" 3")), None);
    assert_eq!(parse_u64(&bytes("18446744073709551616")), None);
}

#[test]
fn config_accepts_good_values() {
    let cfg = build_config(
        Some(bytes("8080")),
        Some(bytes("1048576")),
        Some(String::from("https://example.invalid/repo")),
        true,
    )
    .unwrap();
    assert_eq!(cfg.port, 8080);
    assert_eq!(cfg.max_payload_size, 1048576);
    assert!(cfg.index_enabled);
    assert_eq!(cfg.repo_link, Some(String::from("https://example.invalid/repo")));
}

#[test]
fn config_missing_port_is_fatal() {
    let r = build_config(None, Some(bytes("10")), None, false);
    assert_eq!(r.unwrap_err(), ConfigError::MissingPort);
}

#[test]
fn config_invalid_port_is_fatal() {
    for bad in ["", "abc", "65536", "-1"] {
        let r = build_config(Some(bytes(bad)), Some(bytes("10")), None, false);
        assert_eq!(r.unwrap_err(), ConfigError::InvalidPort);
    }
}

#[test]
fn config_missing_limit_is_fatal() {
    let r = build_config(Some(bytes("8080")), None, None, false);
    assert_eq!(r.unwrap_err(), ConfigError::MissingMaxPayloadSize);
}

#[test]
fn config_invalid_limit_is_fatal() {
    for bad in ["", "0", "ten", "99999999999999999999999"] {
        let r = build_config(Some(bytes("8080")), Some(bytes(bad)), None, false);
        assert_eq!(r.unwrap_err(), ConfigError::InvalidMaxPayloadSize);
    }
}

#[test]
fn config_missing_link_is_fatal_only_with_index() {
    let r = build_config(Some(bytes("8080")), Some(bytes("10")), None, true);
    assert_eq!(r.unwrap_err(), ConfigError::MissingRepoLink);
    let ok = build_config(Some(bytes("8080")), Some(bytes("10")), None, false);
    assert!(ok.is_ok());
}

#[test]
fn port_boundary_is_exact() {
    let max = build_config(Some(bytes("65535")), Some(bytes("10")), None, false).unwrap();
    assert_eq!(max.port, 65535);
    let past = build_config(Some(bytes("65536")), Some(bytes("10")), None, false);
    assert_eq!(past.unwrap_err(), ConfigError::InvalidPort);
}
