//! Resource clients, one per family of endpoints.

pub mod customers_api;
