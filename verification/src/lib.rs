//! Procedures that generate and use an ES256K signing key held in a guarded
//! secret store, without handing the key to the caller.
//!
//! A procedure names the secrets it needs by location, never by value. The
//! engine that runs it resolves each location into guarded bytes for the length
//! of one call, stores what a generating procedure hands over, and passes the
//! plaintext output on. What this crate proves is what each procedure does
//! with the bytes it is lent: see `procs::es256k`. The signature scheme and
//! the engine's types stand behind the unproved declarations of `algorithm` and
//! `host`.

pub mod algorithm;
pub mod encoding;
pub mod error;
pub mod host;
pub mod procs;
