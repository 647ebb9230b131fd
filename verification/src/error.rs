//! The error that decoding reports.

use vstd::prelude::*;

verus! {

/// Why a document could not be decoded.
#[derive(Debug, Clone, Copy, PartialEq, Eq, Structural)]
pub enum Error {
    /// The document does not have the shape that the decoded type asks for.
    InvalidResponse,
}

} // verus!
