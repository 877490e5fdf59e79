//! Gantry: the request-processing core of a registry of signed WebAssembly modules.
//!
//! The registry is two services on a message bus. The catalog stores and lists
//! the signed tokens of modules, accounts and operators. The stream service
//! moves the bytes of a module between clients and a blob store, in chunks. A
//! middleware stands before the catalog: it opens the token of every put,
//! validates it, and hands the catalog an augmented copy.
//!
//! This crate holds what these parts decide and compute, with contracts that
//! the verifier checks. It reads no socket and writes to no store: a handler
//! takes what was read as plain values, and gives back what is to be written
//! or sent.
//!
//! * [`protocol`] holds the records that travel, and [`envelope`] the message
//!   around them.
//! * [`keyspace`] lays the catalog out in the key-value store, and shows that
//!   a put keeps that layout sound.
//! * [`catalog`], [`middleware`] and [`streams`] are the two services and the
//!   middleware.
//! * [`client`] and [`cli`] are the client's side, and [`config`] the settings
//!   of the server.
//! * [`json`] and [`jwt`] are the doors to `serde_json` and `wascap`, and
//!   [`text`] holds the helpers on strings.

pub mod catalog;
pub mod cli;
pub mod client;
pub mod config;
pub mod envelope;
pub mod errors;
pub mod json;
pub mod jwt;
pub mod keyspace;
pub mod middleware;
pub mod protocol;
pub mod streams;
pub mod text;
