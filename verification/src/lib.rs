//! Core of a catalog service for audio recordings.
//!
//! The catalog stores metadata for each recording (title, artist, file
//! location, declared size).  This crate holds the verified logic of the
//! service: resolving a catalog entry from a query, validating a requested
//! byte range against the entry's declared file size, extracting that exact
//! range from the file's bytes, and generating a multiple-choice listening
//! quiz from a random sample of a recording.
//!
//! Storage, HTTP transport and file reads are collaborators around this
//! core: they hand in plain values (the catalog as a vector of records, the
//! bytes of a file) and receive plain values back.

pub mod errors;
pub mod models;
pub mod query;
pub mod quiz;
pub mod range;
mod rng;
pub mod text;
