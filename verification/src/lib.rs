//! Request planning and data records for the Customers resource of the
//! Square REST API.
//!
//! The library decides, for every operation on the Customers resource, which
//! HTTP verb is used, which URL is addressed and whether a JSON body travels
//! with the request. It also decides whether a response counts as a success.
//! Performing the network round trip and turning JSON into records is left to
//! the caller.

pub mod api;
pub mod config;
pub mod http;
pub mod models;
