//! License verification and licensing gate.
//!
//! The crate decides, at process startup, whether a deployment may run the
//! gated authentication feature. It parses an offline license artifact,
//! checks its detached signature against a compiled-in trust anchor, and
//! combines the outcome with layered configuration (environment, config
//! file, defaults) into a single, fail-closed set of resolved options.

pub mod collect;
pub mod config;
pub mod crypto;
pub mod license;
