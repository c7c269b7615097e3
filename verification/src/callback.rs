//! The PayTech IPN callback: its signature and the reply to it.

use vstd::prelude::*;
use vstd::utf8::encode_utf8;
use crate::config::Config;
use crate::crypto::{hex_encode, hex_lower, hmac_sha256, lemma_hex_lower_len, spec_hmac_sha256};
use crate::models::{
    ApiError, CallbackResponse, ErrorResponse, PayTechIPNCallback, STATUS_INTERNAL_SERVER_ERROR,
    STATUS_UNAUTHORIZED, opt_view,
};

verus! {

/// The signed text of a callback: `final_item_price|ref_command|api_key`.
pub open spec fn spec_callback_message(final_item_price: Seq<char>, ref_command: Seq<char>, api_key: Seq<char>) -> Seq<char> {
    final_item_price + "|"@ + ref_command + "|"@ + api_key
}

/// The signature that a genuine callback carries: the lowercase hex of the
/// HMAC-SHA256 of its signed text (UTF-8) under the API secret (UTF-8).
pub open spec fn spec_expected_signature(api_secret: Seq<char>, message: Seq<char>) -> Seq<char> {
    hex_lower(spec_hmac_sha256(encode_utf8(api_secret), encode_utf8(message)))
}

/// The event type of a completed payment.
pub open spec fn sale_complete() -> Seq<char> {
    "sale_complete"@
}

/// The reply to a callback whose signature holds: `received` with the order
/// reference for a completed sale, `ignored` without it for any other event.
pub open spec fn callback_reply_ok(cb: PayTechIPNCallback, resp: CallbackResponse) -> bool {
    &&& resp.event@ == cb.type_event@
    &&& if cb.type_event@ == sale_complete() {
        resp.status@ == "received"@ && opt_view(resp.ref_command) == Some(cb.ref_command@)
    } else {
        resp.status@ == "ignored"@ && resp.ref_command is None
    }
}

/// The reply to a callback whose signature does not hold.
pub open spec fn is_invalid_signature(e: ApiError) -> bool {
    e.status == STATUS_UNAUTHORIZED && e.body.error@ == "Invalid signature"@
}

/// The text that a callback signs.
pub fn callback_message(callback: &PayTechIPNCallback, api_key: &str) -> (m: String)
    ensures
        m@ == spec_callback_message(callback.final_item_price@, callback.ref_command@, api_key@),
{
    proof {
        reveal_strlit("|");
    }
    let mut m = callback.final_item_price.clone();
    m.append("|");
    m.append(callback.ref_command.as_str());
    m.append("|");
    m.append(api_key);
    m
}

/// The signature that `callback` must carry under `config`'s API key and secret.
pub fn expected_signature(config: &Config, callback: &PayTechIPNCallback) -> (r: Result<String, ApiError>)
    ensures
        r matches Ok(s) && s@ == spec_expected_signature(
            config.paytech_api_secret@,
            spec_callback_message(callback.final_item_price@, callback.ref_command@, config.paytech_api_key@),
        ),
        spec_expected_signature(
            config.paytech_api_secret@,
            spec_callback_message(callback.final_item_price@, callback.ref_command@, config.paytech_api_key@),
        ).len() == 64,
{
    let message = callback_message(callback, config.paytech_api_key.as_str());
    let secret = config.paytech_api_secret.as_str();
    match hmac_sha256(secret.as_bytes(), message.as_str().as_bytes()) {
        Ok(tag) => {
            proof {
                lemma_hex_lower_len(tag@);
            }
            Ok(hex_encode(tag.as_slice()))
        },
        Err(_) => Err(
            ApiError {
                status: STATUS_INTERNAL_SERVER_ERROR,
                body: ErrorResponse {
                    error: String::from_str("HMAC initialization failed: Invalid Length"),
                },
            },
        ),
    }
}

/// The reply to `callback` given the signature it must carry: 401 "Invalid
/// signature" when its `hmac_compute` differs; otherwise `received` for a
/// completed sale and `ignored` for any other event.
pub fn check_callback(callback: PayTechIPNCallback, expected: &str) -> (r: Result<CallbackResponse, ApiError>)
    ensures
        r is Err <==> expected@ != callback.hmac_compute@,
        r matches Err(e) ==> is_invalid_signature(e),
        r matches Ok(resp) ==> callback_reply_ok(callback, resp),
{
    let expected_owned = expected.to_owned();
    if expected_owned != callback.hmac_compute {
        proof {
            reveal_strlit("Invalid signature");
        }
        return Err(ApiError::new(STATUS_UNAUTHORIZED, String::from_str("Invalid signature")));
    }
    let sale = String::from_str("sale_complete");
    if callback.type_event != sale {
        Ok(
            CallbackResponse {
                status: String::from_str("ignored"),
                event: callback.type_event,
                ref_command: None,
            },
        )
    } else {
        Ok(
            CallbackResponse {
                status: String::from_str("received"),
                event: callback.type_event,
                ref_command: Some(callback.ref_command),
            },
        )
    }
}

/// Handles a PayTech IPN callback: it is accepted exactly when its
/// `hmac_compute` is the expected signature under `config`, and the reply is
/// then as `check_callback` gives it.
pub fn paytech_callback(config: &Config, callback: PayTechIPNCallback) -> (r: Result<CallbackResponse, ApiError>)
    ensures
        ({
            let expected = spec_expected_signature(
                config.paytech_api_secret@,
                spec_callback_message(callback.final_item_price@, callback.ref_command@, config.paytech_api_key@),
            );
            &&& expected.len() == 64
            &&& r is Err <==> expected != callback.hmac_compute@
            &&& r matches Err(e) ==> is_invalid_signature(e)
            &&& r matches Ok(resp) ==> callback_reply_ok(callback, resp)
        }),
{
    match expected_signature(config, &callback) {
        Ok(expected) => check_callback(callback, expected.as_str()),
        Err(e) => Err(e),
    }
}

/// The layout of the signed text: the price, '|', the reference, '|', and
/// the whole API key, nothing else.
pub proof fn lemma_signed_text_layout(price: Seq<char>, reference: Seq<char>, api_key: Seq<char>)
    ensures
        ({
            let m = spec_callback_message(price, reference, api_key);
            &&& m.len() == price.len() + reference.len() + api_key.len() + 2
            &&& m.take(price.len() as int) == price
            &&& m[price.len() as int] == '|'
            &&& m.subrange(price.len() + 1int, price.len() + 1int + reference.len()) == reference
            &&& m[price.len() + 1int + reference.len()] == '|'
            &&& m.skip(price.len() + reference.len() + 2int) == api_key
        }),
{
    reveal_strlit("|");
    let m = spec_callback_message(price, reference, api_key);
    let a = price.len() as int;
    let b = reference.len() as int;
    assert(m.take(a) == price);
    assert(m.subrange(a + 1, a + 1 + b) == reference);
    assert(m.skip(a + b + 2) == api_key);
}

/// Different API keys sign different texts: the signed text determines the
/// price, the reference and the key.
pub proof fn lemma_signed_text_determines_parts(
    p1: Seq<char>,
    r1: Seq<char>,
    k1: Seq<char>,
    p2: Seq<char>,
    r2: Seq<char>,
    k2: Seq<char>,
)
    requires
        spec_callback_message(p1, r1, k1) == spec_callback_message(p2, r2, k2),
        p1.len() == p2.len(),
        r1.len() == r2.len(),
    ensures
        p1 == p2,
        r1 == r2,
        k1 == k2,
{
    lemma_signed_text_layout(p1, r1, k1);
    lemma_signed_text_layout(p2, r2, k2);
}

/// An accepted callback is answered for its own event, and only a completed
/// sale is received: its reply carries the callback's order reference and
/// status "received"; any other event's reply carries no reference and
/// status "ignored".
pub proof fn lemma_callback_reply(cb: PayTechIPNCallback, resp: CallbackResponse)
    requires
        callback_reply_ok(cb, resp),
    ensures
        resp.event@ == cb.type_event@,
        resp.ref_command is Some <==> cb.type_event@ == seq![
            's', 'a', 'l', 'e', '_', 'c', 'o', 'm', 'p', 'l', 'e', 't', 'e',
        ],
        resp.ref_command is Some ==> resp.ref_command->0@ == cb.ref_command@,
        resp.status@ == seq!['r', 'e', 'c', 'e', 'i', 'v', 'e', 'd'] <==> resp.ref_command is Some,
        resp.status@ == seq!['i', 'g', 'n', 'o', 'r', 'e', 'd'] <==> resp.ref_command is None,
{
    reveal_strlit("sale_complete");
    reveal_strlit("received");
    reveal_strlit("ignored");
    assert("sale_complete"@ =~= seq!['s', 'a', 'l', 'e', '_', 'c', 'o', 'm', 'p', 'l', 'e', 't', 'e']);
    assert("received"@ =~= seq!['r', 'e', 'c', 'e', 'i', 'v', 'e', 'd']);
    assert("ignored"@ =~= seq!['i', 'g', 'n', 'o', 'r', 'e', 'd']);
}

} // verus!
