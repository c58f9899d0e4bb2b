use vstd::prelude::*;

verus! {

/// Why a property could not be computed.
#[derive(Debug, Clone, PartialEq, Eq)]
pub enum Error {
    /// The model number names no model of the requested property kind.
    UnknownModel,
    /// Evaluating a formula was aborted; the text describes the fault.
    NumericalError(String),
}

} // verus!
