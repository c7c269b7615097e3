use paytech::config::{Config, EnvVars};
use paytech::models::{
    PayTechErrorField, PayTechResponse, PaymentRequest, PaymentRequestItem, Product, ProductData,
};
use paytech::payment::{
    command_name, complete_payment, payment_error_detail, ref_command, request_payment,
};
use paytech::pricing::{order_fits, price_order};

fn product(uuid: &str, name: &str, price: i32) -> Product {
    Product {
        uuid: uuid.to_string(),
        name: name.to_string(),
        description: String::new(),
        price_xof: price,
        product_type: "electronics".to_string(),
    }
}

fn catalog() -> ProductData {
    ProductData {
        products: vec![
            product("p1", "Phone", 150000, ),
            product("p2", "Cable", 2500),
            product("p3", "Laptop", 450000),
        ],
    }
}

fn item(uuid: &str, qty: i32) -> PaymentRequestItem {
    PaymentRequestItem { uuid: uuid.to_string(), qty }
}

fn config() -> Config {
    Config::from_env(EnvVars {
        paytech_api_key: Some("my_key".to_string()),
        paytech_api_secret: Some("my_secret".to_string()),
        paytech_base_url: Some("https://paytech.sn/api".to_string()),
        paytech_env: Some("test".to_string()),
        paytech_ipn_url: Some("https://shop.example/ipn".to_string()),
        paytech_success_url: Some("https://shop.example/ok".to_string()),
        paytech_cancel_url: Some("https://shop.example/ko".to_string()),
        port: None,
    })
    .unwrap()
}

fn empty_response(success: i32) -> PayTechResponse {
    PayTechResponse {
        success,
        token: None,
        redirect_url: None,
        message: None,
        payment_url: None,
        payment_token: None,
        url: None,
        redirect: None,
        error: None,
        errors: None,
    }
}

#[test]
fn order_total_is_sum_of_subtotals() {
    let c = catalog();
    let items = vec![item("p1", 1), item("p2", 3)];
    let order = price_order(&c.products, &items).unwrap();
    assert_eq!(order.order_details.len(), 2);
    assert_eq!(order.order_details[0].uuid, "p1");
    assert_eq!(order.order_details[0].name, "Phone");
    assert_eq!(order.order_details[0].qty, 1);
    assert_eq!(order.order_details[0].unit_price, 150000);
    assert_eq!(order.order_details[0].subtotal, 150000);
    assert_eq!(order.order_details[1].subtotal, 7500);
    assert_eq!(order.total_price, 157500);
    let sum: i32 = order.order_details.iter().map(|d| d.subtotal).sum();
    assert_eq!(order.total_price, sum);
}

#[test]
fn empty_order_is_free() {
    let order = price_order(&catalog().products, &[]).unwrap();
    assert!(order.order_details.is_empty());
    assert_eq!(order.total_price, 0);
}

#[test]
fn non_positive_quantity_is_refused() {
    let c = catalog();
    let e = price_order(&c.products, &[item("p1", 2), item("p2", 0)]).unwrap_err();
    assert_eq!(e.status, 400);
    assert_eq!(e.body.error, "Invalid quantity for product: p2");
    let e = price_order(&c.products, &[item("p3", -4)]).unwrap_err();
    assert_eq!(e.body.error, "Invalid quantity for product: p3");
}

#[test]
fn unknown_product_is_refused() {
    let c = catalog();
    let e = price_order(&c.products, &[item("p1", 1), item("nope", 1)]).unwrap_err();
    assert_eq!(e.status, 400);
    assert_eq!(e.body.error, "Product not found: nope");
}

#[test]
fn quantity_is_checked_before_the_catalog() {
    let c = catalog();
    let e = price_order(&c.products, &[item("nope", 0)]).unwrap_err();
    assert_eq!(e.body.error, "Invalid quantity for product: nope");
}

#[test]
fn first_bad_line_wins() {
    let c = catalog();
    let e = price_order(&c.products, &[item("ghost", 1), item("p1", 0)]).unwrap_err();
    assert_eq!(e.body.error, "Product not found: ghost");
}

#[test]
fn last_catalog_entry_for_a_uuid_wins() {
    let products = vec![product("dup", "Old", 10), product("dup", "New", 20)];
    let order = price_order(&products, &[item("dup", 2)]).unwrap();
    assert_eq!(order.order_details[0].name, "New");
    assert_eq!(order.total_price, 40);
}

#[test]
fn arithmetic_bound_is_checked() {
    let c = catalog();
    assert!(order_fits(&c.products, &[item("p3", 4000)]));
    assert!(!order_fits(&c.products, &[item("p3", 5000)]));
    assert!(!order_fits(&c.products, &[item("p3", 4000), item("p3", 1000)]));
    // lines after the first refused one do not count
    assert!(order_fits(&c.products, &[item("p1", 0), item("p3", 5000)]));
    assert!(order_fits(&c.products, &[item("zz", 1), item("p3", 5000)]));
}

#[test]
fn reference_and_name() {
    assert_eq!(ref_command(1700000000), "CMD_1700000000");
    assert_eq!(ref_command(0), "CMD_0");
    assert_eq!(command_name(0), "Commande en ligne");
    assert_eq!(command_name(1), "Achat de 1 article(s)");
    assert_eq!(command_name(12), "Achat de 12 article(s)");
}

#[test]
fn prepared_request_carries_the_order() {
    let cfg = config();
    let req = PaymentRequest { products: vec![item("p1", 1), item("p3", 2)] };
    let p = request_payment(&cfg, &catalog(), &req, 1700000000).unwrap();
    assert_eq!(p.total_price, 1050000);
    assert_eq!(p.endpoint, "https://paytech.sn/api/payment/request-payment");
    let headers: Vec<(&str, &str)> =
        p.headers.iter().map(|(n, v)| (n.as_str(), v.as_str())).collect();
    assert_eq!(
        headers,
        vec![
            ("Content-Type", "application/json"),
            ("API_KEY", "my_key"),
            ("API_SECRET", "my_secret"),
        ]
    );
    let r = &p.paytech_request;
    assert_eq!(r.item_name, "Achat de 2 article(s)");
    assert_eq!(r.command_name, "Achat de 2 article(s)");
    assert_eq!(r.item_price, 1050000);
    assert_eq!(r.ref_command, "CMD_1700000000");
    assert_eq!(r.currency, "XOF");
    assert_eq!(r.env, "test");
    assert_eq!(r.ipn_url.as_deref(), Some("https://shop.example/ipn"));
    assert_eq!(r.success_url.as_deref(), Some("https://shop.example/ok"));
    assert_eq!(r.cancel_url.as_deref(), Some("https://shop.example/ko"));
}

#[test]
fn empty_request_is_a_plain_online_order() {
    let p = request_payment(&config(), &catalog(), &PaymentRequest { products: vec![] }, 5).unwrap();
    assert_eq!(p.paytech_request.item_name, "Commande en ligne");
    assert_eq!(p.paytech_request.item_price, 0);
    assert_eq!(p.paytech_request.ref_command, "CMD_5");
}

#[test]
fn refused_request_is_not_prepared() {
    let req = PaymentRequest { products: vec![item("p9", 1)] };
    let e = request_payment(&config(), &catalog(), &req, 5).unwrap_err();
    assert_eq!(e.status, 400);
    assert_eq!(e.body.error, "Product not found: p9");
}

#[test]
fn accepted_payment_echoes_the_order() {
    let req = PaymentRequest { products: vec![item("p2", 2)] };
    let p = request_payment(&config(), &catalog(), &req, 1700000123).unwrap();
    let mut resp = empty_response(1);
    resp.token = Some("tok".to_string());
    resp.redirect_url = Some("https://paytech.sn/payment/checkout/tok".to_string());
    let reply = complete_payment(p, resp).unwrap();
    assert_eq!(reply.total_price, 5000);
    assert_eq!(reply.currency, "XOF");
    assert_eq!(reply.ref_command, "CMD_1700000123");
    assert_eq!(reply.payment_url, "https://paytech.sn/payment/checkout/tok");
    assert_eq!(reply.payment_token, "tok");
    assert_eq!(reply.order_details.len(), 1);
    assert_eq!(reply.order_details[0].subtotal, 5000);
}

fn prepared() -> paytech::payment::PreparedPayment {
    let req = PaymentRequest { products: vec![item("p1", 1)] };
    request_payment(&config(), &catalog(), &req, 1).unwrap()
}

#[test]
fn payment_url_falls_back_in_order() {
    let mut resp = empty_response(1);
    resp.payment_url = Some("a".to_string());
    resp.url = Some("b".to_string());
    resp.redirect = Some("c".to_string());
    resp.payment_token = Some("pt".to_string());
    let reply = complete_payment(prepared(), resp).unwrap();
    assert_eq!(reply.payment_url, "a");
    assert_eq!(reply.payment_token, "pt");

    let mut resp = empty_response(1);
    resp.url = Some("b".to_string());
    resp.redirect = Some("c".to_string());
    assert_eq!(complete_payment(prepared(), resp).unwrap().payment_url, "b");

    let mut resp = empty_response(1);
    resp.redirect = Some("c".to_string());
    assert_eq!(complete_payment(prepared(), resp).unwrap().payment_url, "c");

    let reply = complete_payment(prepared(), empty_response(1)).unwrap();
    assert_eq!(reply.payment_url, "");
    assert_eq!(reply.payment_token, "");
}

fn refusal(message: Option<&str>, error: Option<PayTechErrorField>) -> String {
    let mut resp = empty_response(0);
    resp.message = message.map(|s| s.to_string());
    resp.error = error;
    let e = complete_payment(prepared(), resp).unwrap_err();
    assert_eq!(e.status, 400);
    e.body.error
}

#[test]
fn refusal_with_text_error() {
    assert_eq!(
        refusal(Some("Echec"), Some(PayTechErrorField::Text("cle invalide".to_string()))),
        "Payment request failed: Echec: cle invalide"
    );
    assert_eq!(
        refusal(None, Some(PayTechErrorField::Text("cle invalide".to_string()))),
        "Payment request failed: cle invalide"
    );
}

#[test]
fn refusal_with_array_error() {
    let list = PayTechErrorField::List(vec![
        Some("a".to_string()),
        None,
        Some("b".to_string()),
        Some("c".to_string()),
    ]);
    assert_eq!(refusal(Some("Erreur"), Some(list)), "Payment request failed: Erreur: a, b, c");
    let only_numbers = PayTechErrorField::List(vec![None, None]);
    assert_eq!(refusal(Some("Erreur"), Some(only_numbers)), "Payment request failed: Erreur");
    let single = PayTechErrorField::List(vec![None, Some("x".to_string())]);
    assert_eq!(refusal(None, Some(single)), "Payment request failed: x");
}

#[test]
fn refusal_with_other_error() {
    assert_eq!(
        refusal(Some("Erreur"), Some(PayTechErrorField::Other("{\"code\":42}".to_string()))),
        "Payment request failed: Erreur: {\"code\":42}"
    );
}

#[test]
fn refusal_without_detail_is_unknown() {
    assert_eq!(refusal(None, None), "Payment request failed: Unknown payment error");
    assert_eq!(refusal(Some(""), None), "Payment request failed: Unknown payment error");
    assert_eq!(refusal(Some("Fermé"), None), "Payment request failed: Fermé");
    assert_eq!(
        refusal(None, Some(PayTechErrorField::List(vec![]))),
        "Payment request failed: Unknown payment error"
    );
}

#[test]
fn error_detail_alone() {
    let mut resp = empty_response(-1);
    resp.message = Some("m".to_string());
    resp.error = Some(PayTechErrorField::Text("".to_string()));
    assert_eq!(payment_error_detail(&resp), "m: ");
    assert_eq!(complete_payment(prepared(), resp).unwrap_err().body.error, "Payment request failed: m: ");
}

#[test]
fn secret_only_reaches_the_headers() {
    let c1 = config();
    let mut c2 = config();
    c2.paytech_api_secret = "another_secret".to_string();
    let req = PaymentRequest { products: vec![item("p1", 2), item("p2", 1)] };
    let p1 = request_payment(&c1, &catalog(), &req, 1700000000).unwrap();
    let p2 = request_payment(&c2, &catalog(), &req, 1700000000).unwrap();
    let (a, b) = (&p1.paytech_request, &p2.paytech_request);
    assert_eq!(a.item_name, b.item_name);
    assert_eq!(a.item_price, b.item_price);
    assert_eq!(a.ref_command, b.ref_command);
    assert_eq!(a.command_name, b.command_name);
    assert_eq!(a.currency, b.currency);
    assert_eq!(a.env, b.env);
    assert_eq!(a.ipn_url, b.ipn_url);
    assert_eq!(a.success_url, b.success_url);
    assert_eq!(a.cancel_url, b.cancel_url);
    assert_eq!(p1.endpoint, p2.endpoint);
    assert_eq!(p1.headers[2].1, "my_secret");
    assert_eq!(p2.headers[2].1, "another_secret");
    let mut resp = empty_response(1);
    resp.token = Some("t".to_string());
    let r1 = complete_payment(p1, resp).unwrap();
    let mut resp = empty_response(1);
    resp.token = Some("t".to_string());
    let r2 = complete_payment(p2, resp).unwrap();
    assert_eq!(r1.total_price, r2.total_price);
    assert_eq!(r1.ref_command, r2.ref_command);
    assert_eq!(r1.payment_token, r2.payment_token);
    assert_eq!(r1.payment_url, r2.payment_url);
    assert_eq!(r1.order_details.len(), r2.order_details.len());
    let bad = PaymentRequest { products: vec![item("p1", 0)] };
    let e1 = request_payment(&c1, &catalog(), &bad, 1).unwrap_err();
    let e2 = request_payment(&c2, &catalog(), &bad, 1).unwrap_err();
    assert_eq!(e1.body.error, e2.body.error);
}
