//! What can end a run before its time.

use vstd::prelude::*;

verus! {

/// The failures of a run, by the step that failed.
#[derive(Clone, Copy, Debug, PartialEq, Eq, Structural)]
pub enum ErrorKind {
    /// A store could not be listed.
    Listing,
    /// An input object could not be fetched.
    Fetch,
    /// An input object's body is not a gzip stream.
    Decompress,
    /// The decompressed text does not fit the record schema.
    Parse,
    /// The parsed table could not be encoded.
    Encode,
    /// An artifact could not be written.
    Publish,
    /// An event that does not answer the action the run last asked for.
    OutOfTurn,
}

} // verus!
