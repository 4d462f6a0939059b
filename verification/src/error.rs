//! Errors of the fallible conversions.

use vstd::prelude::*;

verus! {

/// Why a conversion into a non-empty collection failed.
#[derive(Copy, Clone, Debug, PartialEq, Eq, Structural)]
pub enum TryFromError {
    /// The source collection held no entry.
    SourceEmpty,
}

} // verus!
