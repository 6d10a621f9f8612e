//! A small client library for a signed REST call: it builds the
//! timestamp-based HMAC-SHA256 authentication material for a GET request
//! against a fixed exchange endpoint, and parses the JSON reply.

pub mod decimal;
pub mod errors;
pub mod request;
pub mod response;
pub mod signing;
