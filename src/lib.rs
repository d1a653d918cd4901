//! Typed client layer for NASA's public data APIs: request URLs with the API
//! key injected, the key file format, and decoding of the APOD and NeoWs
//! payloads into plain records.


pub mod apis;
pub mod document;
pub mod errors;
pub mod parser;
pub mod urls;

pub use errors::{ApiKeyError, NetworkError, NeowsError};
pub use parser::Parser;
pub use urls::Urls;
pub use apis::{ApiKey, Apod, Links, NEOFeed, NearEarthObject, NIVL};
