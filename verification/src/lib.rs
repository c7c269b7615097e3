//! A PayTech payment gateway service: the product catalog, order pricing,
//! the PayTech request and reply, and the signed IPN callback, with their
//! contracts proved by Verus. The HTTP server around it lives in `app/`.

pub mod models;
pub mod text;
pub mod products;
pub mod config;
pub mod crypto;
pub mod callback;
pub mod pricing;
pub mod payment;
pub mod handlers;
