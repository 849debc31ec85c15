//! Tests for the IRSS raw_dest and listen_port configuration parsing.

use bpfagent::{
    config::EbpfProgramConfig,
    irss_common::{LISTEN_PORT, RAW_DEST},
    programs::irss::{parse_ipv4, parse_listen_port, parse_raw_dest},
};

fn config_with(settings: Option<toml::Table>) -> EbpfProgramConfig {
    EbpfProgramConfig {
        name: "irss".to_string(),
        enabled: true,
        settings,
    }
}

fn settings_with(key: &str, value: toml::Value) -> Option<toml::Table> {
    let mut table = toml::Table::new();
    table.insert(key.to_string(), value);
    Some(table)
}

#[test]
fn missing_settings_use_default() {
    assert_eq!(parse_raw_dest(&config_with(None)), RAW_DEST);
    assert_eq!(parse_listen_port(&config_with(None)), LISTEN_PORT);
}

#[test]
fn missing_keys_use_default() {
    let config = config_with(Some(toml::Table::new()));
    assert_eq!(parse_raw_dest(&config), RAW_DEST);
    assert_eq!(parse_listen_port(&config), LISTEN_PORT);
}

#[test]
fn non_string_raw_dest_uses_default() {
    let config = config_with(settings_with("raw_dest", toml::Value::Integer(42)));
    assert_eq!(parse_raw_dest(&config), RAW_DEST);
}

#[test]
fn valid_ipv4_raw_dest_is_used() {
    let config = config_with(settings_with(
        "raw_dest",
        toml::Value::String("192.0.2.1".to_string()),
    ));
    assert_eq!(parse_raw_dest(&config), [192, 0, 2, 1]);
}

#[test]
fn invalid_ipv4_raw_dest_uses_default() {
    let config = config_with(settings_with(
        "raw_dest",
        toml::Value::String("999.1.1.1".to_string()),
    ));
    assert_eq!(parse_raw_dest(&config), RAW_DEST);
}

#[test]
fn non_integer_listen_port_uses_default() {
    let config = config_with(settings_with(
        "listen_port",
        toml::Value::String("5020".to_string()),
    ));
    assert_eq!(parse_listen_port(&config), LISTEN_PORT);
}

#[test]
fn valid_listen_port_is_used() {
    let config = config_with(settings_with("listen_port", toml::Value::Integer(5051)));
    assert_eq!(parse_listen_port(&config), 5051);
}

#[test]
fn zero_listen_port_uses_default() {
    let config = config_with(settings_with("listen_port", toml::Value::Integer(0)));
    assert_eq!(parse_listen_port(&config), LISTEN_PORT);
}

#[test]
fn out_of_range_listen_port_uses_default() {
    let config = config_with(settings_with("listen_port", toml::Value::Integer(70_000)));
    assert_eq!(parse_listen_port(&config), LISTEN_PORT);
}

#[test]
fn defaults_are_the_documented_values() {
    assert_eq!(RAW_DEST, [10, 10, 10, 253]);
    assert_eq!(LISTEN_PORT, 5020);
}

#[test]
fn negative_and_boundary_ports() {
    let port = |v: i64| parse_listen_port(&config_with(settings_with("listen_port", toml::Value::Integer(v))));
    assert_eq!(port(-1), LISTEN_PORT);
    assert_eq!(port(1), 1);
    assert_eq!(port(65535), 65535);
    assert_eq!(port(65536), LISTEN_PORT);
}

#[test]
fn other_settings_do_not_interfere() {
    let mut table = toml::Table::new();
    table.insert("raw_dest".to_string(), toml::Value::String("10.0.0.7".to_string()));
    table.insert("listen_port".to_string(), toml::Value::Integer(6000));
    table.insert("other".to_string(), toml::Value::Boolean(true));
    let config = config_with(Some(table));
    assert_eq!(parse_raw_dest(&config), [10, 0, 0, 7]);
    assert_eq!(parse_listen_port(&config), 6000);
}

#[test]
fn ipv4_parsing_accepts_only_dotted_quads() {
    let cases: [(&str, Option<[u8; 4]>); 15] = [
        ("0.0.0.0", Some([0, 0, 0, 0])),
        ("255.255.255.255", Some([255, 255, 255, 255])),
        ("192.0.2.1", Some([192, 0, 2, 1])),
        ("01.2.3.4", None),
        ("1.2.3", None),
        ("1.2.3.4.5", None),
        ("256.1.1.1", None),
        ("1..2.3", None),
        ("", None),
        (" 1.2.3.4", None),
        ("1.2.3.4 ", None),
        ("1.2.3.0004", None),
        ("+1.2.3.4", None),
        ("1.2.3.a", None),
        ("\u{0661}.2.3.4", None),
    ];
    for (case, expected) in cases {
        assert_eq!(parse_ipv4(case), expected, "case {:?}", case);
    }
}
