//! The data that flows through the service: catalog entries, payment
//! requests, the messages exchanged with PayTech, and the replies sent back.

use vstd::prelude::*;

verus! {

/// The text of an optional string.
pub open spec fn opt_view(o: Option<String>) -> Option<Seq<char>> {
    match o {
        Some(s) => Some(s@),
        None => None,
    }
}

/// A catalog entry. `product_type` is the `type` field of `products.json`.
#[derive(Debug)]
pub struct Product {
    pub uuid: String,
    pub name: String,
    pub description: String,
    pub price_xof: i32,
    pub product_type: String,
}

/// The mathematical content of a [`Product`].
pub struct ProductView {
    pub uuid: Seq<char>,
    pub name: Seq<char>,
    pub description: Seq<char>,
    pub price_xof: i32,
    pub product_type: Seq<char>,
}

impl View for Product {
    type V = ProductView;

    open spec fn view(&self) -> ProductView {
        ProductView {
            uuid: self.uuid@,
            name: self.name@,
            description: self.description@,
            price_xof: self.price_xof,
            product_type: self.product_type@,
        }
    }
}

impl Product {
    /// A field-by-field copy.
    pub(crate) fn duplicate(&self) -> (r: Product)
        ensures
            r@ == self@,
    {
        Product {
            uuid: self.uuid.clone(),
            name: self.name.clone(),
            description: self.description.clone(),
            price_xof: self.price_xof,
            product_type: self.product_type.clone(),
        }
    }
}

/// The views of a sequence of products, in order.
pub open spec fn products_view(s: Seq<Product>) -> Seq<ProductView> {
    s.map_values(|p: Product| p@)
}

/// The content of `products.json`.
#[derive(Debug)]
pub struct ProductData {
    pub products: Vec<Product>,
}

/// One line of a payment request: a product and a quantity.
#[derive(Debug)]
pub struct PaymentRequestItem {
    pub uuid: String,
    pub qty: i32,
}

/// The body of `POST /api/request_payment`.
#[derive(Debug)]
pub struct PaymentRequest {
    pub products: Vec<PaymentRequestItem>,
}

/// The body sent to PayTech's `payment/request-payment` endpoint.
#[derive(Debug)]
pub struct PayTechRequest {
    pub item_name: String,
    pub item_price: i32,
    pub ref_command: String,
    pub command_name: String,
    pub currency: String,
    pub env: String,
    pub ipn_url: Option<String>,
    pub success_url: Option<String>,
    pub cancel_url: Option<String>,
}

/// The `error` (or `errors`) field of a PayTech reply, which PayTech sends
/// as a string, as an array, or as some other JSON value.
#[derive(Debug)]
pub enum PayTechErrorField {
    /// A JSON string.
    Text(String),
    /// A JSON array: each element that is a JSON string, and `None` for the others.
    List(Vec<Option<String>>),
    /// Any other JSON value, as its compact JSON text.
    Other(String),
}

/// The reply of PayTech's `payment/request-payment` endpoint.
#[derive(Debug)]
pub struct PayTechResponse {
    pub success: i32,
    pub token: Option<String>,
    pub redirect_url: Option<String>,
    pub message: Option<String>,
    pub payment_url: Option<String>,
    pub payment_token: Option<String>,
    pub url: Option<String>,
    pub redirect: Option<String>,
    pub error: Option<PayTechErrorField>,
    pub errors: Option<PayTechErrorField>,
}

/// The IPN notification that PayTech posts to `/api/callback_paytech`.
#[derive(Debug)]
pub struct PayTechIPNCallback {
    pub type_event: String,
    pub ref_command: String,
    pub item_name: String,
    pub item_price: String,
    pub final_item_price: String,
    pub currency: String,
    pub custom_field: String,
    pub payment_method: String,
    pub api_key_sha256: String,
    pub api_secret_sha256: String,
    pub hmac_compute: String,
    pub client_phone: String,
    pub client_email: String,
}

/// One priced line of an order.
#[derive(Debug)]
pub struct OrderDetail {
    pub uuid: String,
    pub name: String,
    pub qty: i32,
    pub unit_price: i32,
    pub subtotal: i32,
}

/// The mathematical content of an [`OrderDetail`].
pub struct OrderDetailView {
    pub uuid: Seq<char>,
    pub name: Seq<char>,
    pub qty: i32,
    pub unit_price: i32,
    pub subtotal: int,
}

impl View for OrderDetail {
    type V = OrderDetailView;

    open spec fn view(&self) -> OrderDetailView {
        OrderDetailView {
            uuid: self.uuid@,
            name: self.name@,
            qty: self.qty,
            unit_price: self.unit_price,
            subtotal: self.subtotal as int,
        }
    }
}

/// The views of a sequence of order lines, in order.
pub open spec fn details_view(s: Seq<OrderDetail>) -> Seq<OrderDetailView> {
    s.map_values(|d: OrderDetail| d@)
}

/// The reply of `POST /api/request_payment` on success.
#[derive(Debug)]
pub struct PaymentResponse {
    pub order_details: Vec<OrderDetail>,
    pub total_price: i32,
    pub currency: String,
    pub payment_url: String,
    pub payment_token: String,
    pub ref_command: String,
}

/// The body of every error reply.
#[derive(Debug)]
pub struct ErrorResponse {
    pub error: String,
}

/// An error reply: an HTTP status code and its body.
#[derive(Debug)]
pub struct ApiError {
    pub status: u16,
    pub body: ErrorResponse,
}

/// The reply of `POST /api/callback_paytech` when the signature holds.
#[derive(Debug)]
pub struct CallbackResponse {
    pub status: String,
    pub event: String,
    pub ref_command: Option<String>,
}

/// HTTP 400 Bad Request.
pub const STATUS_BAD_REQUEST: u16 = 400;

/// HTTP 401 Unauthorized.
pub const STATUS_UNAUTHORIZED: u16 = 401;

/// HTTP 500 Internal Server Error.
pub const STATUS_INTERNAL_SERVER_ERROR: u16 = 500;

impl ApiError {
    /// An error reply with the given status and message.
    pub fn new(status: u16, message: String) -> (r: ApiError)
        ensures
            r.status == status,
            r.body.error@ == message@,
    {
        ApiError { status, body: ErrorResponse { error: message } }
    }
}

} // verus!
