//! Error translation for a launcher layer sitting above a client layer.
//!
//! The launcher wraps the client layer's classified errors, adds an
//! unclassified message-carrying variant of its own, and renders both as a
//! stable numeric code and a diagnostic string, for propagation across a
//! foreign-function boundary.

pub mod errors;
