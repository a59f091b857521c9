//! Numbers that the layout of a catalog file fixes.

use vstd::prelude::*;

verus! {

/// The pages of a catalog that are told by their number.
#[derive(Debug, Clone, Copy, PartialEq, Eq, Structural)]
pub enum SasCatalog {
    /// The first index page of the file.
    FirstIndexPage,
    /// The number of pages at the start of the file that hold no entries.
    UselessPages,
}

impl SasCatalog {
    /// The number that stands for a variant.
    pub open spec fn code_of(self) -> int {
        match self {
            SasCatalog::FirstIndexPage => 1,
            SasCatalog::UselessPages => 3,
        }
    }

    /// The number that stands for the variant.
    pub fn code(&self) -> (r: u32)
        ensures
            r == self.code_of(),
    {
        match self {
            SasCatalog::FirstIndexPage => 1,
            SasCatalog::UselessPages => 3,
        }
    }
}

} // verus!
