//! The errors that an operation can end with.

use vstd::prelude::*;

verus! {

/// Why an operation failed. `E` is the transport's own error type, which is
/// carried through untouched.
#[derive(Clone, Copy, Debug, PartialEq)]
pub enum Error<E> {
    /// The transport failed to write or to read.
    VisaApiError(E),
    /// A response token matched no spelling of the vocabulary.
    StrumParseError(),
    /// No matching instrument session could be had.
    NoInstrumentFound(),
}

} // verus!
