//! Typed client library for a resource-oriented HTTP API that answers with
//! JSON envelopes of the form `{code, result, data, message?}`.
//!
//! The heart of the crate is a declarative endpoint-binding framework:
//! a resource type declares a path template together with the number of
//! integer identifiers the template expects (its arity), and in return gains
//! uniformly shaped "get one" / "get all" operations.  The framework checks
//! the supplied argument variant against the declared arity, interpolates the
//! identifiers into the template left to right, appends the API key to the
//! URL, and unwraps the response envelope with a fixed precedence
//! (`data`, then `message`, then a generic unreachable error).
//!
//! The HTTP transport itself is owned by the calling application; this crate
//! computes the request URLs and interprets the response bodies.

pub mod args;
pub mod binding;
pub mod client;
pub mod domain;
pub mod endpoints;
pub mod envelope;
pub mod errors;
pub mod numtext;
pub mod template;

pub use args::EndpointGetArgs;
pub use binding::EndpointGetAll;
pub use binding::EndpointGetOne;
pub use client::NaClient;
pub use errors::NaApiError;
