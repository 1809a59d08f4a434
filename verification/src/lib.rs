//! Resolution of a command line into one operation on a key/value store.
//!
//! The command line arrives as plain values ([`opts::Opts`]) together with a
//! snapshot of what the process environment offers
//! ([`config::Environment`]). [`config::Config::try_from`] classifies the
//! positional tokens as one [`config::Operation`], settles the path of the
//! store and the working directory, and reports the first failure as a
//! [`error::ConfigError`].
pub mod config;
pub mod decimal;
pub mod error;
pub mod opts;
pub mod path;
