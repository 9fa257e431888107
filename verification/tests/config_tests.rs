use loop_pad::config::{parse_bool_auto, parse_u16_auto, Config, HidConfig, RgbConfig};
use loop_pad::protocol::Rgb;

#[test]
fn test_default_config() {
    let config = Config::default();
    assert_eq!(config.hid.vid, 0x574C);
    assert_eq!(config.hid.pid, 0x1DF9);
    assert_eq!(config.demo.start_layer, 0);
}

#[test]
fn test_config_loading() {
    let config = Config::default();
    assert_eq!(config.hid.vid, 0x574C);
    assert_eq!(config.hid.pid, 0x1DF9);
    assert_eq!(config.demo.start_layer, 0);
    assert_eq!(config.demo.arm_timeout_seconds, 30);
}

#[test]
fn mock_config_forces_the_no_device_path() {
    let config = Config::mock();
    assert_eq!(
        config.hid,
        HidConfig {
            vid: 0,
            pid: 0,
            usage_page: None,
            usage: None,
        }
    );
    assert!(!config.midi.enabled);
    assert!(config.midi.port_hint.is_none());
}

#[test]
fn default_discovery_criteria_include_usage_pair() {
    let config = Config::default();
    assert_eq!(config.hid.usage_page, Some(0xFF60));
    assert_eq!(config.hid.usage, Some(0x0061));
    assert!(!config.midi.enabled);
    assert_eq!(config.midi.port_hint.as_deref(), Some("Loop"));
}

#[test]
fn config_color_converts_to_wire_color() {
    let cfg = RgbConfig { r: 7, g: 8, b: 9 };
    assert_eq!(Rgb::from(cfg), Rgb { r: 7, g: 8, b: 9 });
}

#[test]
fn u16_parser_accepts_decimal_and_hex() {
    assert_eq!(parse_u16_auto("123"), Some(123));
    assert_eq!(parse_u16_auto(" 123 "), Some(123));
    assert_eq!(parse_u16_auto("0x574C"), Some(0x574C));
    assert_eq!(parse_u16_auto("0X1a"), Some(0x1A));
    assert_eq!(parse_u16_auto("+5"), Some(5));
    assert_eq!(parse_u16_auto("0"), Some(0));
    assert_eq!(parse_u16_auto("65535"), Some(65535));
    assert_eq!(parse_u16_auto("0xFFFF"), Some(65535));
    assert_eq!(parse_u16_auto("0007"), Some(7));
}

#[test]
fn u16_parser_rejects_junk_and_overflow() {
    assert_eq!(parse_u16_auto(""), None);
    assert_eq!(parse_u16_auto("   "), None);
    assert_eq!(parse_u16_auto("abc"), None);
    assert_eq!(parse_u16_auto("12a"), None);
    assert_eq!(parse_u16_auto("-5"), None);
    assert_eq!(parse_u16_auto("65536"), None);
    assert_eq!(parse_u16_auto("0x10000"), None);
    assert_eq!(parse_u16_auto("99999999999"), None);
    assert_eq!(parse_u16_auto("0x"), None);
    assert_eq!(parse_u16_auto("+"), None);
}

#[test]
fn bool_parser_accepts_the_eight_words() {
    assert_eq!(parse_bool_auto("1"), Some(true));
    assert_eq!(parse_bool_auto("true"), Some(true));
    assert_eq!(parse_bool_auto("yes"), Some(true));
    assert_eq!(parse_bool_auto("on"), Some(true));
    assert_eq!(parse_bool_auto("0"), Some(false));
    assert_eq!(parse_bool_auto("false"), Some(false));
    assert_eq!(parse_bool_auto("no"), Some(false));
    assert_eq!(parse_bool_auto("off"), Some(false));
}

#[test]
fn bool_parser_ignores_case_and_space() {
    assert_eq!(parse_bool_auto(" TRUE "), Some(true));
    assert_eq!(parse_bool_auto("Off"), Some(false));
    assert_eq!(parse_bool_auto("YES"), Some(true));
    assert_eq!(parse_bool_auto("maybe"), None);
    assert_eq!(parse_bool_auto(""), None);
    assert_eq!(parse_bool_auto("10"), None);
}
