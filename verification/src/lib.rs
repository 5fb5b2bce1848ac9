//! Templates for HTTP API endpoints: an endpoint is described by its path,
//! method, and fields; the crate builds the request that it stands for, hands
//! it to a client, and classifies and unwraps the response.

pub mod enums;
pub mod errors;
pub mod text;
pub mod fields;
pub mod json;
pub mod path;
pub mod request;
pub mod client;
pub mod endpoint;
pub mod params;
pub mod definition;
pub mod clients;

pub use crate::client::Client;
pub use crate::endpoint::{Endpoint, MiddleWare, WithMiddleware, Wrapper};
