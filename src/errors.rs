//! Errors of the client layer, and the outside error types they carry.
use vstd::prelude::*;

verus! {

/// A transport failure reported by the HTTP client.
#[verifier::external_type_specification]
#[verifier::external_body]
pub struct ExReqwestError(reqwest::Error);

/// A syntax error reported by the `json` parser.
#[verifier::external_type_specification]
#[verifier::external_body]
pub struct ExJsonError(json::Error);

/// An I/O error, the kind under which key file failures are reported.
#[verifier::external_type_specification]
#[verifier::external_body]
pub struct ExIoError(std::io::Error);

/// Why fetching or decoding an API payload failed.
#[derive(Debug)]
pub enum NetworkError {
    /// The request did not reach the API.
    ConnectionFailed(reqwest::Error),
    /// The body is not valid JSON.
    JsonParseFailed(json::Error),
    /// A required field of the record at this position of the feed is
    /// missing or has the wrong type.
    MalformedRecord(usize),
}

/// A NeoWs request that could not be made.
#[derive(Debug)]
pub enum NeowsError {
    BadRequest(reqwest::Error),
}

/// Why the API key could not be had.
#[derive(Debug)]
pub enum ApiKeyError {
    /// The key file is valid JSON but holds no string under `key`.
    InvalidApiKey(),
    /// The key file is missing, unreadable, or not valid JSON.
    KeyFile(std::io::Error),
}

} // verus!
