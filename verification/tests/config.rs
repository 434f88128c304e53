use waveplus_gateway::config::Config;
use waveplus_gateway::config::ConfigError;
use waveplus_gateway::config::parse_serial;

#[test]
fn defaults_match_the_recognized_options() {
    let config = Config::default();
    assert_eq!(config.wifi_ssid, "");
    assert_eq!(config.wifi_psk, "");
    assert_eq!(config.waveplus_serial, "");
    assert_eq!(config.read_interval, 30);
    assert_eq!(config.server, "");
    assert_eq!(config.ntp_server, "pool.ntp.org");
}

#[test]
fn missing_wifi_name_is_fatal() {
    let config = Config::default();
    assert_eq!(config.validate(), Err(ConfigError::MissingWifiName));

    let config = Config { wifi_ssid: "attic", ..Config::default() };
    assert_eq!(config.validate(), Ok(()));
}

#[test]
fn serial_numbers_parse_as_decimal() {
    assert_eq!(parse_serial("0"), Some(0));
    assert_eq!(parse_serial("123456"), Some(123456));
    assert_eq!(parse_serial("2930012345"), Some(2930012345));
    assert_eq!(parse_serial("4294967295"), Some(u32::MAX));
    assert_eq!(parse_serial("007"), Some(7));
}

#[test]
fn bad_serial_numbers_are_rejected() {
    assert_eq!(parse_serial(""), None);
    assert_eq!(parse_serial("12a4"), None);
    assert_eq!(parse_serial("-5"), None);
    assert_eq!(parse_serial(" 12"), None);
    assert_eq!(parse_serial("4294967296"), None);
    assert_eq!(parse_serial("99999999999999999999"), None);
}
