//! Synthesizes a chronologically ordered chain of content-addressed commit
//! objects and commits them into an existing version-control object store,
//! simulating plausible daily activity over a historical span.

/// committer contains methods for issuing git commits.
pub mod committer;
/// dates contains the holiday table and the logic around which days to skip
/// committing on.
pub mod dates;
/// custom in-house errors that other errors received by external crates are
/// translated into.
pub mod errors;
/// gitstore holds the trusted boundary to the repository's object store.
pub mod gitstore;
/// hasher computes the store's content-addressed identifier of an object.
pub mod hasher;
/// options holds the plain settings a commit run is configured with.
pub mod options;
/// writer contains methods for building git commit objects byte by byte.
pub mod writer;

pub use crate::options::Options;
