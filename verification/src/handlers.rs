//! What the `GET /` and `POST /api/list_product` endpoints answer.

use vstd::prelude::*;
use crate::models::{Product, ProductData, products_view};
use crate::products::{filter_products_by_type, opt_str_view, spec_filter_by_type};

verus! {

/// The greeting of `GET /`.
pub open spec fn welcome_text() -> Seq<char> {
    "Welcome to PayTech Rust Axum Server!"@
}

/// The message that `GET /` answers with.
pub fn root() -> (message: String)
    ensures
        message@ == welcome_text(),
{
    String::from_str("Welcome to PayTech Rust Axum Server!")
}

/// The answer of `POST /api/list_product`: the listed products and how many
/// there are.
#[derive(Debug)]
pub struct ProductListing {
    pub products: Vec<Product>,
    pub count: usize,
}

/// Lists the catalog's products of type `allowed_type` (all of them when it
/// is absent), in catalog order, with their number.
pub fn list_products(catalog: &ProductData, allowed_type: Option<&str>) -> (r: ProductListing)
    ensures
        products_view(r.products@) == spec_filter_by_type(
            products_view(catalog.products@),
            opt_str_view(allowed_type),
        ),
        r.count == r.products@.len(),
{
    let products = filter_products_by_type(catalog.products.as_slice(), allowed_type);
    let count = products.len();
    ProductListing { products, count }
}

} // verus!
