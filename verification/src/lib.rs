//! Backend library for a small user-registration HTTP service.
//!
//! The library holds the logic of the service: the error multi-map that
//! accumulates validation failures, the staged builder for a user row,
//! the taxonomy of request-level failures and their mapping to
//! problem-details responses, and the decision logic of the registration
//! pipeline. The surrounding process (HTTP server, database access,
//! configuration files) lives outside the library and only hands plain
//! values in and out.

pub mod configuration;
pub mod erro;
pub mod ids;
pub mod images;
pub mod models;
pub mod register;
pub mod startup;
