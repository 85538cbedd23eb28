//! Typed client for the BotiCord REST API.
//!
//! The library describes every call as a plain [`client::ApiRequest`] value
//! (method, URL, authorization header and body) and decides how a response
//! status maps onto a [`BoticordError`]. Sending the request and decoding the
//! JSON body are left to the transport that runs it.
pub mod types;
pub mod route;
pub mod errors;
pub mod client;

pub use errors::BoticordError;
pub use client::BoticordClient;
