use vstd::prelude::*;

verus! {

/// What went wrong when writing a property.
#[derive(Clone, Copy, Debug, Eq, Hash, Ord, PartialEq, PartialOrd, Structural)]
pub enum FltkFormErrorKind {
    /// No child carries the requested label.
    PropertyNotFound,
    /// A child carries the label, but its kind of node holds no writable value.
    FailedToChangeData,
}

/// The error of the property accessors.
#[derive(Debug)]
#[non_exhaustive]
pub enum FltkFormError {
    /// A failure reported by the toolkit, by the toolkit's description of it.
    FltkError(String),
    /// A failure of the form logic itself.
    Internal(FltkFormErrorKind),
    /// A failure reported by the toolkit or another outside party.
    Unknown(String),
}

} // verus!
