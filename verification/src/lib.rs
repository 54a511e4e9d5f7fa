//! A todo service's decision logic: the bearer-token gate in front of the
//! protected routes, the token verifier behind it, and the answers the request
//! handlers give to what storage and the identity provider report.
//!
//! Everything here works on plain values. Reading headers, fetching key sets,
//! querying storage and talking to the identity provider are left to the
//! caller, who hands the outcomes in and carries the decisions out.

pub mod auth;
pub mod config;
pub mod handler;
pub mod keys;
pub mod middleware;
pub mod model;
pub mod provider;
pub mod response;
pub mod route;
pub mod schema;
pub mod secret;
pub mod text;
pub mod token;
