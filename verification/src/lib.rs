//! Treasury factory: a verified model of a three-stage provisioning saga,
//! the widget replicator and the static web4 responder that together set up
//! per-organization treasury instances, plus the sandbox command parser.

pub mod account;
pub mod assets;
pub mod b64;
pub mod escape;
pub mod factory;
pub mod json;
pub mod replace;
pub mod sandbox;
pub mod web4;
