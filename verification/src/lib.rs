//! Building blocks for an HTTP service: a TLS acceptor whose server
//! configuration can be replaced while it runs, and the decision logic of the
//! middleware that sits in front of the request handlers.

pub mod config_channel;
pub mod delivery_queue;
pub mod tls_acceptor;
pub mod guarantees;
pub mod text;
pub mod headers;
pub mod cors;
pub mod errors;
pub mod logger;
pub mod auth;
pub mod oidc;
