//! Clients: a base URL together with what sends the requests.

pub mod reqwest_middleware;
