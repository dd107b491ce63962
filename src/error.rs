use vstd::prelude::*;

verus! {

/// Why an event could not be formatted. The event is dropped; the formatter
/// stays usable.
#[derive(Clone, Copy, Debug, PartialEq, Eq, Structural)]
pub enum FormatError {
    /// The timestamp could not be formatted.
    Time,
}

} // verus!
