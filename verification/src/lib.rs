//! Extension-loading and capability-negotiation core of a map compiler
//! toolchain.
//!
//! The host executable discovers shared libraries in a directory, verifies
//! their ABI and version symbols, and negotiates versioned capabilities with
//! each one through a probe session.  This crate holds the verified logic of
//! that subsystem: the capability registry and probe protocol, the loader's
//! validation and name derivation, the collection that owns the retained
//! extensions, and the data model of the logging bridge.  Everything that
//! touches the platform itself — opening libraries, resolving symbols,
//! calling across the binary boundary — is left to the embedding executable,
//! which hands this crate plain values and acts on what it decides.

mod api_info;
pub mod cli;
pub mod commands;
pub mod compiler_error;
pub mod dummy_api;
pub mod error_strings;
pub mod extension;
pub mod extension_list;
pub mod extension_logger;
pub mod helpers;
pub mod libstate;
pub mod loader;
pub mod log_api;
pub mod map_parser_api;
pub mod pipeline;
pub mod probe_api;
pub mod toolchain;

pub use api_info::ApiInfo;
