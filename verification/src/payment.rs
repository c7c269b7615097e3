//! A payment request: the order sent to PayTech, and what PayTech's reply
//! makes of it.

use vstd::prelude::*;
use crate::config::Config;
use crate::models::{
    ApiError, OrderDetail, PayTechErrorField, PayTechRequest, PayTechResponse, PaymentRequest,
    PaymentResponse, ProductData, STATUS_BAD_REQUEST, details_view, opt_view,
};
use crate::pricing::{
    PricedOrder, PricingOutcome, order_fits_i32, price_order, spec_price_order,
};
use crate::text::{all_digits, decimal_string, digits_value, lemma_decimal_is_digits, spec_decimal};

verus! {

/// The order reference: `CMD_` followed by the request's Unix time in seconds.
pub open spec fn spec_ref_command(timestamp: u64) -> Seq<char> {
    "CMD_"@ + spec_decimal(timestamp as nat)
}

/// The name of an order of `n` lines.
pub open spec fn spec_command_name(n: nat) -> Seq<char> {
    if n == 0 {
        "Commande en ligne"@
    } else {
        "Achat de "@ + spec_decimal(n) + " article(s)"@
    }
}

/// PayTech's payment-request endpoint under `base_url`.
pub open spec fn spec_endpoint(base_url: Seq<char>) -> Seq<char> {
    base_url + "/payment/request-payment"@
}

/// The body sent to PayTech for `order`, under `config`, at `timestamp`.
pub open spec fn is_paytech_request(r: PayTechRequest, config: Config, order: PricedOrder, timestamp: u64) -> bool {
    &&& r.item_name@ == spec_command_name(order.order_details@.len())
    &&& r.command_name@ == spec_command_name(order.order_details@.len())
    &&& r.item_price == order.total_price
    &&& r.ref_command@ == spec_ref_command(timestamp)
    &&& r.currency@ == "XOF"@
    &&& r.env@ == config.paytech_env@
    &&& opt_view(r.ipn_url) == Some(config.paytech_ipn_url@)
    &&& opt_view(r.success_url) == Some(config.paytech_success_url@)
    &&& opt_view(r.cancel_url) == Some(config.paytech_cancel_url@)
}

/// The order reference for `timestamp`.
pub fn ref_command(timestamp: u64) -> (s: String)
    ensures
        s@ == spec_ref_command(timestamp),
{
    let mut s = String::from_str("CMD_");
    let digits = decimal_string(timestamp);
    s.append(digits.as_str());
    s
}

/// The name of an order of `n` lines.
pub fn command_name(n: usize) -> (s: String)
    ensures
        s@ == spec_command_name(n as nat),
{
    if n == 0 {
        String::from_str("Commande en ligne")
    } else {
        let mut s = String::from_str("Achat de ");
        let digits = decimal_string(n as u64);
        s.append(digits.as_str());
        s.append(" article(s)");
        s
    }
}

/// PayTech's payment-request endpoint under `base_url`.
pub fn payment_endpoint(base_url: &str) -> (s: String)
    ensures
        s@ == spec_endpoint(base_url@),
{
    let mut s = String::from_str(base_url);
    s.append("/payment/request-payment");
    s
}

/// The body sent to PayTech for a priced order.
pub fn build_paytech_request(config: &Config, order: &PricedOrder, timestamp: u64) -> (r: PayTechRequest)
    ensures
        is_paytech_request(r, *config, *order, timestamp),
{
    let name = command_name(order.order_details.len());
    PayTechRequest {
        item_name: name.clone(),
        item_price: order.total_price,
        ref_command: ref_command(timestamp),
        command_name: name,
        currency: String::from_str("XOF"),
        env: config.paytech_env.clone(),
        ipn_url: Some(config.paytech_ipn_url.clone()),
        success_url: Some(config.paytech_success_url.clone()),
        cancel_url: Some(config.paytech_cancel_url.clone()),
    }
}

/// The headers of the PayTech call: the JSON content type and the API
/// credentials.
pub open spec fn is_paytech_headers(h: Seq<(String, String)>, config: Config) -> bool {
    &&& h.len() == 3
    &&& h[0].0@ == "Content-Type"@ && h[0].1@ == "application/json"@
    &&& h[1].0@ == "API_KEY"@ && h[1].1@ == config.paytech_api_key@
    &&& h[2].0@ == "API_SECRET"@ && h[2].1@ == config.paytech_api_secret@
}

/// The headers of the PayTech call under `config`.
pub fn paytech_headers(config: &Config) -> (h: Vec<(String, String)>)
    ensures
        is_paytech_headers(h@, *config),
{
    let mut h: Vec<(String, String)> = Vec::new();
    h.push((String::from_str("Content-Type"), String::from_str("application/json")));
    h.push((String::from_str("API_KEY"), config.paytech_api_key.clone()));
    h.push((String::from_str("API_SECRET"), config.paytech_api_secret.clone()));
    h
}

/// A priced order ready to send: the body, endpoint and headers of the PayTech call,
/// and the lines and total that the reply to the client will carry.
#[derive(Debug)]
pub struct PreparedPayment {
    pub paytech_request: PayTechRequest,
    pub endpoint: String,
    pub headers: Vec<(String, String)>,
    pub order_details: Vec<OrderDetail>,
    pub total_price: i32,
}

/// The first step of `POST /api/request_payment`: prices the requested items
/// against the catalog (refusing the order as `price_order` does) and builds
/// the PayTech call for it, with the order reference of `timestamp`.
pub fn request_payment(
    config: &Config,
    catalog: &ProductData,
    payment_req: &PaymentRequest,
    timestamp: u64,
) -> (r: Result<PreparedPayment, ApiError>)
    requires
        order_fits_i32(catalog.products@, payment_req.products@),
    ensures
        match spec_price_order(catalog.products@, payment_req.products@) {
            PricingOutcome::Priced { details, total } => r matches Ok(p) && {
                &&& details_view(p.order_details@) == details
                &&& p.total_price as int == total
                &&& is_paytech_request(
                    p.paytech_request,
                    *config,
                    PricedOrder { order_details: p.order_details, total_price: p.total_price },
                    timestamp,
                )
                &&& p.endpoint@ == spec_endpoint(config.paytech_base_url@)
                &&& is_paytech_headers(p.headers@, *config)
            },
            PricingOutcome::InvalidQuantity { uuid } => r matches Err(e) && e.status
                == STATUS_BAD_REQUEST && e.body.error@ == "Invalid quantity for product: "@ + uuid,
            PricingOutcome::ProductNotFound { uuid } => r matches Err(e) && e.status
                == STATUS_BAD_REQUEST && e.body.error@ == "Product not found: "@ + uuid,
        },
{
    let order = match price_order(catalog.products.as_slice(), payment_req.products.as_slice()) {
        Ok(o) => o,
        Err(e) => return Err(e),
    };
    let paytech_request = build_paytech_request(config, &order, timestamp);
    let endpoint = payment_endpoint(config.paytech_base_url.as_str());
    Ok(
        PreparedPayment {
            paytech_request,
            endpoint,
            headers: paytech_headers(config),
            order_details: order.order_details,
            total_price: order.total_price,
        },
    )
}

/// `a`, then `": "` and `b` when `a` is not empty; `b` alone otherwise.
pub open spec fn join_colon(a: Seq<char>, b: Seq<char>) -> Seq<char> {
    if a.len() == 0 {
        b
    } else {
        a + ": "@ + b
    }
}

/// The string elements of an array, in order.
pub open spec fn string_items(xs: Seq<Option<String>>) -> Seq<Seq<char>>
    decreases xs.len(),
{
    if xs.len() == 0 {
        Seq::empty()
    } else {
        match xs.last() {
            Some(s) => string_items(xs.drop_last()).push(s@),
            None => string_items(xs.drop_last()),
        }
    }
}

/// The texts of `list` joined by `sep`, as `[String]::join` does.
pub open spec fn seq_join(list: Seq<Seq<char>>, sep: Seq<char>) -> Seq<char>
    decreases list.len(),
{
    if list.len() == 0 {
        Seq::empty()
    } else if list.len() == 1 {
        list[0]
    } else {
        seq_join(list.drop_last(), sep) + sep + list.last()
    }
}

/// What a refusal says of itself: its message, then its `error` field (a
/// string; the string elements of an array joined by ", ", when there are
/// any; or any other value's JSON text), the two joined by ": ".
pub open spec fn spec_error_detail(message: Option<String>, error: Option<PayTechErrorField>) -> Seq<char> {
    let base = match message {
        Some(m) => m@,
        None => Seq::empty(),
    };
    match error {
        None => base,
        Some(PayTechErrorField::Text(s)) => join_colon(base, s@),
        Some(PayTechErrorField::List(xs)) => {
            let strs = string_items(xs@);
            if strs.len() == 0 {
                base
            } else {
                join_colon(base, seq_join(strs, ", "@))
            }
        },
        Some(PayTechErrorField::Other(t)) => join_colon(base, t@),
    }
}

/// The message of a refused payment request.
pub open spec fn spec_failure_text(resp: PayTechResponse) -> Seq<char> {
    let d = spec_error_detail(resp.message, resp.error);
    "Payment request failed: "@ + if d.len() == 0 {
        "Unknown payment error"@
    } else {
        d
    }
}

/// The first present of two optional strings.
pub open spec fn or_else(a: Option<Seq<char>>, b: Option<Seq<char>>) -> Option<Seq<char>> {
    match a {
        Some(x) => Some(x),
        None => b,
    }
}

/// An optional string, or the empty string.
pub open spec fn or_empty(a: Option<Seq<char>>) -> Seq<char> {
    match a {
        Some(x) => x,
        None => Seq::empty(),
    }
}

/// The payment page: `redirect_url`, else `payment_url`, else `url`, else
/// `redirect`, else empty.
pub open spec fn spec_payment_url(resp: PayTechResponse) -> Seq<char> {
    or_empty(
        or_else(
            or_else(or_else(opt_view(resp.redirect_url), opt_view(resp.payment_url)), opt_view(resp.url)),
            opt_view(resp.redirect),
        ),
    )
}

/// The payment token: `token`, else `payment_token`, else empty.
pub open spec fn spec_payment_token(resp: PayTechResponse) -> Seq<char> {
    or_empty(or_else(opt_view(resp.token), opt_view(resp.payment_token)))
}

/// The string elements of `xs` joined by ", ", and whether there are any.
fn join_string_items(xs: &Vec<Option<String>>) -> (r: (String, bool))
    ensures
        r.0@ == seq_join(string_items(xs@), ", "@),
        r.1 == (string_items(xs@).len() > 0),
{
    let mut joined = String::new();
    let mut any = false;
    let mut i: usize = 0;
    assert(xs@.take(0) == Seq::<Option<String>>::empty());
    while i < xs.len()
        invariant
            i <= xs@.len(),
            joined@ == seq_join(string_items(xs@.take(i as int)), ", "@),
            any == (string_items(xs@.take(i as int)).len() > 0),
        decreases xs@.len() - i,
    {
        let ghost prev = xs@.take(i as int);
        assert(xs@.take(i + 1).drop_last() == prev);
        assert(xs@.take(i + 1).last() == xs@[i as int]);
        match &xs[i] {
            Some(s) => {
                let ghost items = string_items(prev).push(s@);
                assert(items.drop_last() == string_items(prev));
                if any {
                    joined.append(", ");
                    joined.append(s.as_str());
                } else {
                    joined = s.clone();
                }
                any = true;
            },
            None => {},
        }
        i = i + 1;
    }
    assert(xs@.take(xs@.len() as int) == xs@);
    (joined, any)
}

/// Appends `part` to `msg`, after ": " when `msg` is not empty.
fn append_joined(msg: &mut String, part: &str)
    ensures
        final(msg)@ == join_colon(old(msg)@, part@),
{
    if !msg.as_str().is_empty() {
        msg.append(": ");
    }
    msg.append(part);
}

/// What a refused PayTech reply says of itself.
pub fn payment_error_detail(response: &PayTechResponse) -> (s: String)
    ensures
        s@ == spec_error_detail(response.message, response.error),
{
    let mut msg = match &response.message {
        Some(m) => m.clone(),
        None => String::new(),
    };
    match &response.error {
        None => {},
        Some(PayTechErrorField::Text(s)) => append_joined(&mut msg, s.as_str()),
        Some(PayTechErrorField::List(xs)) => {
            let (joined, any) = join_string_items(xs);
            if any {
                append_joined(&mut msg, joined.as_str());
            }
        },
        Some(PayTechErrorField::Other(t)) => append_joined(&mut msg, t.as_str()),
    }
    msg
}

/// The reply to the client for a payment that PayTech accepted.
pub open spec fn is_payment_reply(prepared: PreparedPayment, response: PayTechResponse, p: PaymentResponse) -> bool {
    &&& details_view(p.order_details@) == details_view(prepared.order_details@)
    &&& p.total_price == prepared.total_price
    &&& p.currency@ == "XOF"@
    &&& p.payment_url@ == spec_payment_url(response)
    &&& p.payment_token@ == spec_payment_token(response)
    &&& p.ref_command@ == prepared.paytech_request.ref_command@
}

/// The second step of `POST /api/request_payment`: PayTech's reply. Unless
/// its `success` is 1 the request is refused with 400 and the reply's own
/// account of the failure; otherwise the client gets the order's lines and
/// total, the order reference that was sent, and the payment page and token
/// taken from the first of their fields that PayTech filled in.
pub fn complete_payment(prepared: PreparedPayment, response: PayTechResponse) -> (r: Result<PaymentResponse, ApiError>)
    ensures
        response.success != 1 ==> (r matches Err(e) && e.status == STATUS_BAD_REQUEST && e.body.error@
            == spec_failure_text(response)),
        response.success == 1 ==> (r matches Ok(p) && is_payment_reply(prepared, response, p)),
{
    if response.success != 1 {
        let detail = payment_error_detail(&response);
        let mut m = String::from_str("Payment request failed: ");
        if detail.as_str().is_empty() {
            m.append("Unknown payment error");
        } else {
            m.append(detail.as_str());
        }
        return Err(ApiError::new(STATUS_BAD_REQUEST, m));
    }
    let payment_url = match response.redirect_url {
        Some(u) => u,
        None => match response.payment_url {
            Some(u) => u,
            None => match response.url {
                Some(u) => u,
                None => match response.redirect {
                    Some(u) => u,
                    None => String::new(),
                },
            },
        },
    };
    let payment_token = match response.token {
        Some(t) => t,
        None => match response.payment_token {
            Some(t) => t,
            None => String::new(),
        },
    };
    Ok(
        PaymentResponse {
            order_details: prepared.order_details,
            total_price: prepared.total_price,
            currency: String::from_str("XOF"),
            payment_url,
            payment_token,
            ref_command: prepared.paytech_request.ref_command,
        },
    )
}

/// The client is told the amount and the order reference that were sent to
/// PayTech: for a payment prepared by `request_payment` at `timestamp` and
/// accepted by PayTech, the reply's total is the `item_price` of the PayTech
/// request and its reference is `CMD_<timestamp>`.
pub proof fn lemma_reply_echoes_request(
    config: Config,
    prepared: PreparedPayment,
    timestamp: u64,
    response: PayTechResponse,
    reply: PaymentResponse,
)
    requires
        is_paytech_request(
            prepared.paytech_request,
            config,
            PricedOrder { order_details: prepared.order_details, total_price: prepared.total_price },
            timestamp,
        ),
        is_payment_reply(prepared, response, reply),
    ensures
        reply.total_price == prepared.paytech_request.item_price,
        reply.ref_command@ == prepared.paytech_request.ref_command@,
        reply.ref_command@ == spec_ref_command(timestamp),
        details_view(reply.order_details@) == details_view(prepared.order_details@),
{
}

/// Two configurations that differ at most in their API secret.
pub open spec fn same_but_secret(a: Config, b: Config) -> bool {
    &&& a.paytech_api_key@ == b.paytech_api_key@
    &&& a.paytech_base_url@ == b.paytech_base_url@
    &&& a.paytech_env@ == b.paytech_env@
    &&& a.paytech_ipn_url@ == b.paytech_ipn_url@
    &&& a.paytech_success_url@ == b.paytech_success_url@
    &&& a.paytech_cancel_url@ == b.paytech_cancel_url@
    &&& a.port == b.port
}

/// Two PayTech request bodies with the same content.
pub open spec fn same_paytech_request(a: PayTechRequest, b: PayTechRequest) -> bool {
    &&& a.item_name@ == b.item_name@
    &&& a.item_price == b.item_price
    &&& a.ref_command@ == b.ref_command@
    &&& a.command_name@ == b.command_name@
    &&& a.currency@ == b.currency@
    &&& a.env@ == b.env@
    &&& opt_view(a.ipn_url) == opt_view(b.ipn_url)
    &&& opt_view(a.success_url) == opt_view(b.success_url)
    &&& opt_view(a.cancel_url) == opt_view(b.cancel_url)
}

/// Two client replies with the same content.
pub open spec fn same_payment_reply(a: PaymentResponse, b: PaymentResponse) -> bool {
    &&& details_view(a.order_details@) == details_view(b.order_details@)
    &&& a.total_price == b.total_price
    &&& a.currency@ == b.currency@
    &&& a.payment_url@ == b.payment_url@
    &&& a.payment_token@ == b.payment_token@
    &&& a.ref_command@ == b.ref_command@
}

/// The API secret goes into the headers of the PayTech call and nowhere
/// else: for the same order and time, two configurations that differ only in
/// their secret give the same body and the same endpoint.
pub proof fn lemma_request_body_ignores_secret(
    c1: Config,
    c2: Config,
    order1: PricedOrder,
    order2: PricedOrder,
    timestamp: u64,
    r1: PayTechRequest,
    r2: PayTechRequest,
)
    requires
        same_but_secret(c1, c2),
        order1.order_details@.len() == order2.order_details@.len(),
        order1.total_price == order2.total_price,
        is_paytech_request(r1, c1, order1, timestamp),
        is_paytech_request(r2, c2, order2, timestamp),
    ensures
        same_paytech_request(r1, r2),
        spec_endpoint(c1.paytech_base_url@) == spec_endpoint(c2.paytech_base_url@),
{
}

/// The client's reply to an accepted payment does not depend on the API
/// secret: two payments prepared with the same lines, total and reference
/// (which `request_payment` computes without the secret) and answered alike
/// by PayTech give the same reply.
pub proof fn lemma_reply_ignores_secret(
    p1: PreparedPayment,
    p2: PreparedPayment,
    response: PayTechResponse,
    r1: PaymentResponse,
    r2: PaymentResponse,
)
    requires
        details_view(p1.order_details@) == details_view(p2.order_details@),
        p1.total_price == p2.total_price,
        p1.paytech_request.ref_command@ == p2.paytech_request.ref_command@,
        is_payment_reply(p1, response, r1),
        is_payment_reply(p2, response, r2),
    ensures
        same_payment_reply(r1, r2),
{
}

/// What the body sent to PayTech says: the order's name (the fixed name for
/// an empty order, otherwise "Achat de ", the number of lines in decimal and
/// " article(s)") as both item and command name; the order's total as price;
/// "CMD_" then the timestamp in decimal as reference; XOF; and the
/// configured PayTech environment and IPN, success and cancel URLs.
pub proof fn lemma_paytech_request_fields(r: PayTechRequest, config: Config, order: PricedOrder, timestamp: u64)
    requires
        is_paytech_request(r, config, order, timestamp),
    ensures
        r.env@ == config.paytech_env@,
        r.item_price == order.total_price,
        r.currency@ == seq!['X', 'O', 'F'],
        r.ipn_url matches Some(u) && u@ == config.paytech_ipn_url@,
        r.success_url matches Some(u) && u@ == config.paytech_success_url@,
        r.cancel_url matches Some(u) && u@ == config.paytech_cancel_url@,
        r.command_name@ == r.item_name@,
        r.ref_command@.len() > 4,
        r.ref_command@.take(4) == seq!['C', 'M', 'D', '_'],
        all_digits(r.ref_command@.skip(4)),
        digits_value(r.ref_command@.skip(4)) == timestamp,
        order.order_details@.len() == 0 ==> r.item_name@ == "Commande en ligne"@,
        order.order_details@.len() > 0 ==> {
            let s = r.item_name@;
            &&& s.len() > 20
            &&& s.take(9) == seq!['A', 'c', 'h', 'a', 't', ' ', 'd', 'e', ' ']
            &&& s.skip(s.len() - 11) == seq![' ', 'a', 'r', 't', 'i', 'c', 'l', 'e', '(', 's', ')']
            &&& all_digits(s.subrange(9, s.len() - 11))
            &&& digits_value(s.subrange(9, s.len() - 11)) == order.order_details@.len()
        },
{
    reveal_strlit("XOF");
    reveal_strlit("CMD_");
    reveal_strlit("Achat de ");
    reveal_strlit(" article(s)");
    lemma_decimal_is_digits(timestamp as nat);
    let rc = r.ref_command@;
    assert(rc.take(4) == "CMD_"@);
    assert(rc.skip(4) == spec_decimal(timestamp as nat));
    let n = order.order_details@.len();
    if n > 0 {
        lemma_decimal_is_digits(n);
        let s = r.item_name@;
        let d = spec_decimal(n);
        assert(s.take(9) == "Achat de "@);
        assert(s.skip(s.len() - 11) == " article(s)"@);
        assert(s.subrange(9, s.len() - 11) == d);
    }
}

/// The payment page and token of an accepted payment are taken from the
/// first of their fields that PayTech filled in, in the order redirect_url,
/// payment_url, url, redirect (and token, payment_token), and are empty when
/// PayTech filled in none.
pub proof fn lemma_reply_fallbacks(prepared: PreparedPayment, response: PayTechResponse, reply: PaymentResponse)
    requires
        is_payment_reply(prepared, response, reply),
    ensures
        response.redirect_url matches Some(u) ==> reply.payment_url@ == u@,
        response.redirect_url is None && response.payment_url is Some ==> reply.payment_url@ == response.payment_url->0@,
        response.redirect_url is None && response.payment_url is None && response.url is Some
            ==> reply.payment_url@ == response.url->0@,
        response.redirect_url is None && response.payment_url is None && response.url is None
            && response.redirect is Some ==> reply.payment_url@ == response.redirect->0@,
        response.redirect_url is None && response.payment_url is None && response.url is None
            && response.redirect is None ==> reply.payment_url@.len() == 0,
        response.token matches Some(t) ==> reply.payment_token@ == t@,
        response.token is None && response.payment_token is Some ==> reply.payment_token@ == response.payment_token->0@,
        response.token is None && response.payment_token is None ==> reply.payment_token@.len() == 0,
{
}

/// A refusal's message starts with "Payment request failed: " and then says
/// what PayTech said: its message alone, its error text alone, or both
/// joined by ": "; the string elements of an error array joined by ", ";
/// and "Unknown payment error" when PayTech said nothing.
pub proof fn lemma_failure_text(response: PayTechResponse)
    ensures
        ({
            let prefix = "Payment request failed: "@;
            let text = spec_failure_text(response);
            &&& text.take(prefix.len() as int) == prefix
            &&& (response.message is None || response.message->0@.len() == 0) && response.error is None
                ==> text == prefix + "Unknown payment error"@
            &&& response.message is Some && response.message->0@.len() > 0 && response.error is None
                ==> text == prefix + response.message->0@
            &&& response.message is None && response.error is Some && response.error->0 is Text
                && response.error->0->Text_0@.len() > 0 ==> text == prefix + response.error->0->Text_0@
            &&& response.message is Some && response.message->0@.len() > 0 && response.error is Some
                && response.error->0 is Text ==> text == prefix + response.message->0@ + ": "@
                + response.error->0->Text_0@
            &&& response.message is Some && response.message->0@.len() > 0 && response.error is Some
                && response.error->0 is Other ==> text == prefix + response.message->0@ + ": "@
                + response.error->0->Other_0@
            &&& response.message is Some && response.message->0@.len() > 0 && response.error is Some
                && response.error->0 is List && string_items(response.error->0->List_0@).len() == 0 ==> text
                == prefix + response.message->0@
        }),
{
    let prefix = "Payment request failed: "@;
    let text = spec_failure_text(response);
    let d = spec_error_detail(response.message, response.error);
    assert(text == prefix + if d.len() == 0 { "Unknown payment error"@ } else { d });
    assert(text.take(prefix.len() as int) == prefix);
    if response.message is None {
        assert(d == spec_error_detail(None, response.error));
    }
}

} // verus!
