//! Why a lookup gave no view.

use vstd::prelude::*;

verus! {

/// `diesel::result::Error`, the failure that the storage layer reports for a
/// query it could not run. Nothing is claimed of what it holds: a value of it
/// is only carried from where it arose to the caller.
#[verifier::external_type_specification]
#[verifier::external_body]
pub struct ExStorageError(diesel::result::Error);

/// The three ways in which a lookup ends without a view.
#[derive(Debug)]
pub enum ViewError {
    /// No account satisfies the lookup key.
    NotFound,
    /// An account and its profile satisfy the key, but the profile has no
    /// statistics row.
    IntegrityFault,
    /// The storage layer failed before there was anything to look at; its
    /// own error is handed on as it came.
    TransportFault(diesel::result::Error),
}

impl From<diesel::result::Error> for ViewError {
    fn from(e: diesel::result::Error) -> (r: ViewError) {
        ViewError::TransportFault(e)
    }
}

impl vstd::std_specs::convert::FromSpecImpl<diesel::result::Error> for ViewError {
    open spec fn obeys_from_spec() -> bool {
        true
    }

    open spec fn from_spec(e: diesel::result::Error) -> ViewError {
        ViewError::TransportFault(e)
    }
}

} // verus!
