//! The errors of frame construction, mutation and decoding.
use vstd::prelude::*;

verus! {

/// A vector or matrix whose size does not match the frame's degrees of
/// freedom. `expected` is the size the frame requires, `found` the size given.
#[derive(Clone, Copy, Debug, PartialEq, Eq, Structural)]
pub struct ShapeError {
    pub expected: usize,
    pub found: usize,
}

/// Why a buffer could not be decoded into a frame.
#[derive(Clone, Copy, Debug, PartialEq, Eq, Structural)]
pub enum DecodeError {
    /// The buffer ends before the last field of the frame.
    Truncated,
    /// A mode selector holds a value outside its enumeration.
    UnknownMode,
}

} // verus!
