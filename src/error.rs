use vstd::prelude::*;

verus! {

/// Error returned when a shutdown handle is created more than once in a process lifetime.
#[derive(Debug, Clone, Copy, PartialEq, Eq, Structural)]
pub struct AlreadyCreatedError;

impl AlreadyCreatedError {
    /// The human-readable description of this error.
    pub open spec fn spec_message() -> Seq<char> {
        "shutdown handler already created"@
    }

    /// Describes the error in words.
    pub fn message(&self) -> (r: String)
        ensures
            r@ == Self::spec_message(),
    {
        let r = String::from_str("shutdown handler already created");
        proof {
            reveal_strlit("shutdown handler already created");
        }
        r
    }
}

} // verus!
