//! A paste-service client library: a closed set of backend kinds, each with
//! its own configuration schema, override flag grammar and wire protocol,
//! unified behind one tagged configuration type.
//!
//! The [`registry`] catalogues the kinds; [`config`] holds the tagged
//! configuration with its strict per-kind schema; [`overrides`] merges
//! per-invocation flag overrides into it; [`protocol`] turns a configuration
//! and a payload into one remote exchange and the exchange's answer into the
//! canonical locator. The caller performs the exchange itself and hands the
//! answer back as plain values.

pub mod config;
pub mod errors;
pub mod overrides;
pub mod protocol;
pub mod registry;
pub mod strutil;
pub mod urltext;
