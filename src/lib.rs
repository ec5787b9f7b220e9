//! Server-side client for a backend-as-a-service REST API.
//!
//! Every endpoint of the API is described here as a pure function from its
//! arguments to an [`ApiRequest`]: the HTTP method, the filled-in path, the
//! headers and the named parameters. Sending the request and decoding the
//! reply is left to the transport that runs around the library.

pub mod enums;
pub mod graphql;
pub mod http;
pub mod json;
pub mod models;
pub mod path;
pub mod teams;

pub use enums::Name;
pub use graphql::Graphql;
pub use http::{ApiRequest, HttpMethod, ParamValue};
pub use teams::Teams;
