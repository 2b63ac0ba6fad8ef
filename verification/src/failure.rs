//! Classification of input failures into a small closed set.

use std::io::ErrorKind;
use vstd::prelude::*;

verus! {

#[verifier::external_type_specification]
pub struct ExErrorKind(std::io::ErrorKind);

/// Why an input could not be opened or read.
#[derive(Clone, Copy, Debug, PartialEq, Eq, Structural)]
pub enum IoFailure {
    NotFound,
    PermissionDenied,
    BrokenPipe,
    AlreadyExists,
    /// Any failure that is none of the above.
    Unknown,
}

/// The class of each failure kind of the standard library.
pub open spec fn class_of(kind: ErrorKind) -> IoFailure {
    match kind {
        ErrorKind::NotFound => IoFailure::NotFound,
        ErrorKind::PermissionDenied => IoFailure::PermissionDenied,
        ErrorKind::BrokenPipe => IoFailure::BrokenPipe,
        ErrorKind::AlreadyExists => IoFailure::AlreadyExists,
        _ => IoFailure::Unknown,
    }
}

/// Classifies a failure kind; every kind without a class of its own is
/// `Unknown`.
pub fn classify(kind: ErrorKind) -> (class: IoFailure)
    ensures
        class == class_of(kind),
{
    match kind {
        ErrorKind::NotFound => IoFailure::NotFound,
        ErrorKind::PermissionDenied => IoFailure::PermissionDenied,
        ErrorKind::BrokenPipe => IoFailure::BrokenPipe,
        ErrorKind::AlreadyExists => IoFailure::AlreadyExists,
        _ => IoFailure::Unknown,
    }
}

impl IoFailure {
    /// The name under which the class is reported.
    pub open spec fn spec_name(self) -> Seq<char> {
        match self {
            IoFailure::NotFound => "not_found"@,
            IoFailure::PermissionDenied => "permission_denied"@,
            IoFailure::BrokenPipe => "broken_pipe"@,
            IoFailure::AlreadyExists => "already_exists"@,
            IoFailure::Unknown => "unknown"@,
        }
    }

    /// The name under which the class is reported.
    pub fn name(&self) -> (name: &'static str)
        ensures
            name@ == self.spec_name(),
    {
        match self {
            IoFailure::NotFound => "not_found",
            IoFailure::PermissionDenied => "permission_denied",
            IoFailure::BrokenPipe => "broken_pipe",
            IoFailure::AlreadyExists => "already_exists",
            IoFailure::Unknown => "unknown",
        }
    }
}

} // verus!
