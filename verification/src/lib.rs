//! A library for generating short URLs through third-party shortening
//! services ("providers").
//!
//! A caller picks a [`providers::Provider`] variant, builds a transport
//! description with [`providers::request`], hands it to an HTTP executor of
//! their choosing, and decodes the answer with [`providers::parse`]; or lets
//! [`client::try_generate_with`] walk the default priority list until one
//! provider answers.  The library performs no I/O of its own.

pub mod client;
pub mod encode;
pub mod laws;
pub mod providers;
pub mod request;
pub mod strutil;
