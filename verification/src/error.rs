//! The errors that decoding reports.

use crate::cbor::ReadError;
use vstd::prelude::*;

verus! {

/// Why a decode step failed.
///
/// `Incomplete`, `Malformed` and `Desynchronized` are fatal: the cursor cannot get
/// past the place where they arose, so decoding of the buffer stops. The others
/// are recoverable: the cursor has already moved past the offending item when
/// a primitive reports them, and a layer that reports them has drained the
/// open scopes, so the caller may go on behind them.
#[derive(Debug, Clone, Copy, PartialEq, Eq, Structural)]
pub enum DecodeError {
    /// Fewer bytes are available than the item at the cursor needs.
    Incomplete,
    /// The bytes at the cursor are not an item that the primitive cursor can read.
    Malformed,
    /// An array was found where one was expected, but with a length that the
    /// layer does not accept.
    ShapeMismatch { found: u64 },
    /// An item of another kind was found than the one expected.
    UnexpectedShape,
    /// A tag outside the set that the layer models; the raw tag is kept.
    Unsupported { tag: u8 },
    /// An item of the expected kind whose content cannot be the value asked for.
    InvalidValue,
    /// A close marker was met while the innermost open scope was not indefinite.
    Desynchronized,
}

impl DecodeError {
    /// Whether decoding of the whole buffer has to stop on this error.
    pub open spec fn is_fatal(self) -> bool {
        self is Incomplete || self is Malformed || self is Desynchronized
    }

    /// Whether decoding of the whole buffer has to stop on this error.
    pub fn fatal(&self) -> (b: bool)
        ensures
            b == self.is_fatal(),
    {
        match self {
            DecodeError::Incomplete => true,
            DecodeError::Malformed => true,
            DecodeError::Desynchronized => true,
            _ => false,
        }
    }

    /// The error that a failed read of the primitive cursor stands for.
    pub open spec fn of_read(e: ReadError) -> DecodeError {
        match e {
            ReadError::EndOfInput => DecodeError::Incomplete,
            ReadError::Unexpected => DecodeError::Malformed,
        }
    }

    /// The error that a failed read of the primitive cursor stands for.
    pub fn from_read(e: ReadError) -> (r: DecodeError)
        ensures
            r == Self::of_read(e),
    {
        match e {
            ReadError::EndOfInput => DecodeError::Incomplete,
            ReadError::Unexpected => DecodeError::Malformed,
        }
    }
}

} // verus!
