//! Why a conversion fails.
use vstd::prelude::*;

verus! {

/// The failures of a conversion. Each aborts the whole call: no partial
/// result is ever returned.
#[derive(Debug, Clone, Copy, PartialEq, Eq, Structural)]
pub enum ConversionError {
    /// The input text is not well-formed JSON.
    Parse,
    /// The value tree could not be rendered as text.
    Serialize,
}

} // verus!
