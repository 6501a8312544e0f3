//! Translation resolution for user interfaces: per-language message catalogs,
//! a selected language with an optional fallback, and parameterized lookup.
//!
//! Catalogs are compiled by `fluent`; language tags are canonicalized by
//! `unic_langid`. Everything that decides which catalog answers a request, and
//! what is returned when none does, is verified here, and so is the scan that
//! keeps out catalog texts which the formatter cannot cope with.

pub mod args;
pub mod catalog;
pub mod config;
pub mod engine;
pub mod guard;
pub mod laws;
pub mod prelude;
pub mod tag;
