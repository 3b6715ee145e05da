//! The two data-modifying operations that are policed.

use vstd::prelude::*;

verus! {

/// A data-modifying operation whose statements are inspected.
#[derive(Debug, Clone, Copy, PartialEq, Eq, Structural)]
pub enum Operation {
    Update,
    Delete,
}

impl Operation {
    /// The upper-case SQL keyword of the operation, as a sequence of characters.
    pub open spec fn keyword(self) -> Seq<char> {
        match self {
            Operation::Update => "UPDATE"@,
            Operation::Delete => "DELETE"@,
        }
    }

    /// The upper-case SQL keyword of the operation.
    pub fn as_str(self) -> (name: &'static str)
        ensures
            name@ == self.keyword(),
    {
        match self {
            Operation::Update => "UPDATE",
            Operation::Delete => "DELETE",
        }
    }
}

} // verus!
