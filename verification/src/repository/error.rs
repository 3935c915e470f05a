//! Failures a record store can report.

use vstd::prelude::*;

verus! {

/// The single failure of the store layer: an insert found its key already
/// bound.
#[derive(Clone, Copy, Debug, PartialEq, Eq, Structural)]
pub enum RepositoryError {
    ValueAlreadyExists,
}

} // verus!
