use paytech::config::{parse_port, Config, ConfigError, EnvVars};
use paytech::text::decimal_string;

fn env(key: Option<&str>, secret: Option<&str>, port: Option<&str>) -> EnvVars {
    EnvVars {
        paytech_api_key: key.map(|s| s.to_string()),
        paytech_api_secret: secret.map(|s| s.to_string()),
        paytech_base_url: None,
        paytech_env: None,
        paytech_ipn_url: None,
        paytech_success_url: None,
        paytech_cancel_url: None,
        port: port.map(|s| s.to_string()),
    }
}

#[test]
fn defaults_fill_unset_settings() {
    let c = Config::from_env(env(Some("key"), Some("secret"), None)).unwrap();
    assert_eq!(c.paytech_api_key, "key");
    assert_eq!(c.paytech_api_secret, "secret");
    assert_eq!(c.paytech_base_url, "https://paytech.sn/api");
    assert_eq!(c.paytech_env, "test");
    assert_eq!(c.paytech_ipn_url, "https://secure-3ds.intech.sn/ping");
    assert_eq!(c.paytech_success_url, "https://example.com/payment/success");
    assert_eq!(c.paytech_cancel_url, "https://example.com/payment/cancel");
    assert_eq!(c.port, 8080);
}

#[test]
fn set_settings_are_kept() {
    let mut e = env(Some("k"), Some("s"), Some("3000"));
    e.paytech_base_url = Some("http://localhost:9000/api".to_string());
    e.paytech_env = Some("prod".to_string());
    e.paytech_ipn_url = Some("https://shop.example/ipn".to_string());
    e.paytech_success_url = Some("https://shop.example/ok".to_string());
    e.paytech_cancel_url = Some("https://shop.example/ko".to_string());
    let c = Config::from_env(e).unwrap();
    assert_eq!(c.paytech_base_url, "http://localhost:9000/api");
    assert_eq!(c.paytech_env, "prod");
    assert_eq!(c.paytech_ipn_url, "https://shop.example/ipn");
    assert_eq!(c.paytech_success_url, "https://shop.example/ok");
    assert_eq!(c.paytech_cancel_url, "https://shop.example/ko");
    assert_eq!(c.port, 3000);
}

#[test]
fn missing_key_comes_first() {
    let e = Config::from_env(env(None, None, Some("bad"))).unwrap_err();
    assert_eq!(e, ConfigError::MissingApiKey);
    assert_eq!(
        e.message(),
        "PAYTECH_API_KEY environment variable is required. Please set it in .env file."
    );
}

#[test]
fn missing_secret_comes_before_port() {
    let e = Config::from_env(env(Some("k"), None, Some("bad"))).unwrap_err();
    assert_eq!(e, ConfigError::MissingApiSecret);
    assert_eq!(
        e.message(),
        "PAYTECH_API_SECRET environment variable is required. Please set it in .env file."
    );
}

#[test]
fn invalid_port_is_refused() {
    for bad in ["abc", "70000", "65536", "", "+", "-1", "-0", " 80", "80 ", "8o80", "1e3"] {
        let e = Config::from_env(env(Some("k"), Some("s"), Some(bad))).unwrap_err();
        assert_eq!(e, ConfigError::InvalidPort, "port {:?}", bad);
        assert_eq!(e.message(), "PORT must be a valid number between 1 and 65535");
    }
}

#[test]
fn port_reads_as_u16_parse_does() {
    assert_eq!(parse_port("8080"), Some(8080));
    assert_eq!(parse_port("+80"), Some(80));
    assert_eq!(parse_port("00080"), Some(80));
    assert_eq!(parse_port("0"), Some(0));
    assert_eq!(parse_port("65535"), Some(65535));
    assert_eq!(parse_port("65536"), None);
    assert_eq!(parse_port("99999999999999999999"), None);
    assert_eq!(parse_port("++1"), None);
    assert_eq!(parse_port("٣"), None);
    for s in ["8080", "+80", "00080", "0", "65535", "65536", "", "+", "-5", "x1", "1x"] {
        assert_eq!(parse_port(s), s.parse::<u16>().ok(), "{:?}", s);
    }
}

#[test]
fn written_port_reads_back() {
    for p in [0u16, 1, 9, 10, 80, 443, 8080, 65535] {
        assert_eq!(parse_port(&decimal_string(p as u64)), Some(p));
    }
}

#[test]
fn decimal_matches_display() {
    for n in [0u64, 7, 10, 42, 1700000000, u64::MAX] {
        assert_eq!(decimal_string(n), n.to_string());
    }
}
