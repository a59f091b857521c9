//! What the builders of the record types report.

use vstd::prelude::*;

verus! {

/// Why a builder could not build.
#[derive(Debug, Clone, Copy, PartialEq, Eq)]
pub enum BuilderError {
    /// The named field was never set.
    UninitializedField(&'static str),
}

impl BuilderError {
    /// The name of the field that the error is about.
    pub open spec fn field_name(self) -> Seq<char> {
        match self {
            BuilderError::UninitializedField(name) => name@,
        }
    }

    /// The message of the error.
    pub fn to_string(&self) -> (r: String)
        ensures
            r@ == "`"@ + self.field_name() + "` must be initialized"@,
    {
        match self {
            BuilderError::UninitializedField(name) => {
                "`".to_string().concat(name).concat("` must be initialized")
            },
        }
    }
}

} // verus!
