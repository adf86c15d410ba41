use vstd::prelude::*;

verus! {

/// The failures that the forest reports to its callers.
#[derive(Debug, Clone, Copy, PartialEq, Eq, Structural)]
pub enum RcfError {
    /// A construction option is out of range (a zero width, window, capacity or tree count).
    InvalidOption,
    /// A point's length differs from the configured number of dimensions.
    InvalidDimension,
    /// A stored sample and its tree disagree.
    NotFound,
    /// A snapshot could not be written.
    SerializationError,
    /// A snapshot could not be read back.
    DeserializationError,
}

} // verus!
