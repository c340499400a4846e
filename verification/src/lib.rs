//! Incremental, poll-driven HTTP response bodies.
//!
//! A response payload is produced as a sequence of chunks computed on
//! demand: a pull-based source is polled for the next chunk and may
//! answer "here is a chunk", "not ready yet, a wake will follow", or
//! "none remain". This crate holds the sources and their payload
//! model; the HTTP framing and the wake plumbing live outside it.

/// The numbered greeting lines and their byte-level payload model.
pub mod lines;

/// The synthetic poll-driven sources of numbered lines.
pub mod source;

/// The file-backed chunk source and its chunking model.
pub mod file;

/// The failure taxonomy and its mapping to HTTP status codes.
pub mod status;
