//! Error kinds of the compile and snapshot drivers.
//!
//! Asset lookup misses are not errors: they are an expected outcome and are
//! reported inside the op response instead.
use vstd::prelude::*;

verus! {

/// A failure that terminates the current compile or snapshot operation.
#[derive(Debug, Clone)]
pub enum DriverError {
    /// A script threw an uncaught exception or failed to parse.
    /// `resource` names the script that was being evaluated.
    ScriptFailure { resource: String, message: String },
    /// A bundle file was missing, unreadable, or not valid UTF-8.
    IoFailure { path: String },
    /// The host/engine protocol was broken: an op request carried an
    /// unexpected payload buffer, an unknown op id, or a malformed
    /// control buffer.
    InvariantViolation,
    /// A snapshot was requested over a compile state that recorded no
    /// written files, so no entry module can be designated.
    NoWrittenFiles,
}

/// Mathematical image of a [`DriverError`].
pub enum DriverErrorView {
    ScriptFailure { resource: Seq<char>, message: Seq<char> },
    IoFailure { path: Seq<char> },
    InvariantViolation,
    NoWrittenFiles,
}

impl View for DriverError {
    type V = DriverErrorView;

    open spec fn view(&self) -> DriverErrorView {
        match self {
            DriverError::ScriptFailure { resource, message } => DriverErrorView::ScriptFailure {
                resource: resource@,
                message: message@,
            },
            DriverError::IoFailure { path } => DriverErrorView::IoFailure { path: path@ },
            DriverError::InvariantViolation => DriverErrorView::InvariantViolation,
            DriverError::NoWrittenFiles => DriverErrorView::NoWrittenFiles,
        }
    }
}

/// The view of an optional driver error.
pub open spec fn opt_error_view(r: Option<DriverError>) -> Option<DriverErrorView> {
    match r {
        Some(e) => Some(e@),
        None => None,
    }
}

} // verus!
