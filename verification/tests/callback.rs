use paytech::callback::{callback_message, check_callback, expected_signature, paytech_callback};
use paytech::config::{Config, EnvVars};
use paytech::models::PayTechIPNCallback;

fn config(key: &str, secret: &str) -> Config {
    Config::from_env(EnvVars {
        paytech_api_key: Some(key.to_string()),
        paytech_api_secret: Some(secret.to_string()),
        paytech_base_url: None,
        paytech_env: None,
        paytech_ipn_url: None,
        paytech_success_url: None,
        paytech_cancel_url: None,
        port: None,
    })
    .unwrap()
}

fn callback(event: &str, price: &str, reference: &str, hmac: &str) -> PayTechIPNCallback {
    PayTechIPNCallback {
        type_event: event.to_string(),
        ref_command: reference.to_string(),
        item_name: "Achat de 1 article(s)".to_string(),
        item_price: price.to_string(),
        final_item_price: price.to_string(),
        currency: "XOF".to_string(),
        custom_field: String::new(),
        payment_method: "Orange Money".to_string(),
        api_key_sha256: String::new(),
        api_secret_sha256: String::new(),
        hmac_compute: hmac.to_string(),
        client_phone: "221770000000".to_string(),
        client_email: "client@example.com".to_string(),
    }
}

const GOOD: &str = "c03e4c5e9442594142e239c2c694aa736de287b037597c11e68dffc3966fe071";

#[test]
fn signed_text_is_price_reference_key() {
    let cb = callback("sale_complete", "25000", "CMD_1700000000", "");
    assert_eq!(callback_message(&cb, "my_key"), "25000|CMD_1700000000|my_key");
}

#[test]
fn signature_is_lowercase_hex_hmac_sha256() {
    let cfg = config("my_key", "my_secret");
    let cb = callback("sale_complete", "25000", "CMD_1700000000", "");
    assert_eq!(expected_signature(&cfg, &cb).unwrap(), GOOD);
    // non-ASCII text is signed as UTF-8
    let cfg = config("clé", "sécret");
    let cb = callback("sale_complete", "é", "ref", "");
    assert_eq!(
        expected_signature(&cfg, &cb).unwrap(),
        "b760e02d2519640c0e33f9185926aeb34911dfa08b5ebf3bb02a61a2cdcc1c6b"
    );
    // an empty key and message
    let cfg = config("", "");
    let cb = callback("sale_complete", "", "", "");
    assert_eq!(
        expected_signature(&cfg, &cb).unwrap(),
        "4dab6b44fb16061b681e85920573f7ec49b9ded5d70385648eaf60005ea99cdc"
    );
}

#[test]
fn completed_sale_is_received() {
    let cfg = config("my_key", "my_secret");
    let cb = callback("sale_complete", "25000", "CMD_1700000000", GOOD);
    let r = paytech_callback(&cfg, cb).unwrap();
    assert_eq!(r.status, "received");
    assert_eq!(r.event, "sale_complete");
    assert_eq!(r.ref_command.as_deref(), Some("CMD_1700000000"));
}

#[test]
fn other_event_is_ignored() {
    let cfg = config("my_key", "my_secret");
    let cb = callback("sale_canceled", "25000", "CMD_1700000000", GOOD);
    let r = paytech_callback(&cfg, cb).unwrap();
    assert_eq!(r.status, "ignored");
    assert_eq!(r.event, "sale_canceled");
    assert_eq!(r.ref_command, None);
}

#[test]
fn wrong_signature_is_unauthorized() {
    let cfg = config("my_key", "my_secret");
    for bad in ["", "deadbeef", &GOOD.to_uppercase(), &GOOD[1..]] {
        let cb = callback("sale_complete", "25000", "CMD_1700000000", bad);
        let e = paytech_callback(&cfg, cb).unwrap_err();
        assert_eq!(e.status, 401);
        assert_eq!(e.body.error, "Invalid signature");
    }
    // a tampered amount breaks the signature
    let cb = callback("sale_complete", "1", "CMD_1700000000", GOOD);
    assert_eq!(paytech_callback(&cfg, cb).unwrap_err().status, 401);
    // so does another secret
    let cb = callback("sale_complete", "25000", "CMD_1700000000", GOOD);
    assert_eq!(paytech_callback(&config("my_key", "other"), cb).unwrap_err().status, 401);
}

#[test]
fn check_compares_exactly() {
    let cb = callback("sale_complete", "1", "R", "abc");
    assert!(check_callback(cb, "abc").is_ok());
    let cb = callback("sale_complete", "1", "R", "abc");
    assert_eq!(check_callback(cb, "abd").unwrap_err().status, 401);
    let cb = callback("SALE_COMPLETE", "1", "R", "abc");
    assert_eq!(check_callback(cb, "abc").unwrap().status, "ignored");
}

#[test]
fn expected_signature_has_64_hex_digits() {
    for (key, secret, price) in [("my_key", "my_secret", "25000"), ("", "", ""), ("k", "s", "1")] {
        let cfg = config(key, secret);
        let sig = expected_signature(&cfg, &callback("sale_complete", price, "R", "")).unwrap();
        assert_eq!(sig.len(), 64);
        assert!(sig.chars().all(|c| c.is_ascii_digit() || ('a'..='f').contains(&c)));
        let short = &sig[..63];
        let cb = callback("sale_complete", price, "R", short);
        assert_eq!(paytech_callback(&cfg, cb).unwrap_err().status, 401);
    }
}
