//! Protocol core of an S3-compatible object store client: path encoding,
//! checksums, request assembly, multipart completion, list pagination and the
//! per-attempt signing and retry decisions.

pub mod encoding;
pub mod checksum;
pub mod client;
pub mod multipart;
pub mod pagination;
pub mod retry;
