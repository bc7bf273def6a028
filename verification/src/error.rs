//! The one way in which the store can refuse a request.

use vstd::prelude::*;

verus! {

/// Why a store could not be made.
#[derive(Clone, Copy, Debug, PartialEq, Eq, Structural)]
pub enum StoreError {
    /// The capacity asked for was zero: such a store could hold nothing.
    InvalidArgument,
}

impl StoreError {
    /// A sentence for the person who has to fix the call.
    pub fn message(&self) -> (text: &'static str)
        ensures
            text@ == "Capacity must be greater than 0"@,
    {
        match self {
            StoreError::InvalidArgument => "Capacity must be greater than 0",
        }
    }
}

} // verus!
