use vstd::prelude::*;

verus! {

/// Failure taxonomy of the pipeline. `Decode` aborts an ingest before any
/// output is produced; `Encode` and `Filesystem` are fatal for the call and
/// may leave a partial triplet behind (no rollback). `Filesystem` is raised
/// only by the unverified shell around the library, at the I/O edge.
#[derive(Debug, Clone, Copy, PartialEq, Eq, Structural)]
pub enum ImageError {
    /// The source bytes are not a parseable image.
    Decode,
    /// Serializing a pixel buffer failed.
    Encode,
    /// Directory creation, copy, write, or metadata access failed.
    Filesystem,
}

} // verus!
