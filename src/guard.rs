use vstd::prelude::*;

use crate::error::AlreadyCreatedError;

verus! {

/// Records whether the process has already created its shutdown handle.
///
/// The flag starts cleared and is set by the first successful claim; it is never
/// cleared again, so every later claim fails.
pub struct CreationFlag {
    created: bool,
}

impl View for CreationFlag {
    type V = bool;

    closed spec fn view(&self) -> bool {
        self.created
    }
}

/// One claim of a creation flag: `before` and `after` are the flag's values
/// around the claim, `succeeded` whether the claim succeeded. The flag is set
/// afterwards either way, and the claim succeeds exactly when it was clear.
pub open spec fn claim_step(before: bool, after: bool, succeeded: bool) -> bool {
    after && (succeeded <==> !before)
}

impl CreationFlag {
    /// A cleared flag: nothing has been created yet.
    pub fn new() -> (r: CreationFlag)
        ensures
            !r@,
    {
        CreationFlag { created: false }
    }

    /// Whether a handle has already been created under this flag.
    pub fn is_created(&self) -> (r: bool)
        ensures
            r == self@,
    {
        self.created
    }

    /// Claims the right to create the handle. Succeeds only if the flag was
    /// clear; leaves it set in every case.
    pub fn try_claim(&mut self) -> (r: Result<(), AlreadyCreatedError>)
        ensures
            claim_step(old(self)@, final(self)@, r is Ok),
    {
        if self.created {
            Err(AlreadyCreatedError)
        } else {
            self.created = true;
            Ok(())
        }
    }
}

/// Of any run of successive claims on one fresh flag, the first succeeds and
/// every later one fails, however many there are.
///
/// `states[i]` is the flag before claim `i` and `states[i + 1]` the flag after
/// it; `succeeded[i]` tells whether claim `i` succeeded.
pub proof fn lemma_only_first_claim_succeeds(states: Seq<bool>, succeeded: Seq<bool>)
    requires
        states.len() == succeeded.len() + 1,
        !states[0],
        forall|i: int|
            #![trigger states[i]]
            1 <= i < states.len() ==> claim_step(states[i - 1], states[i], succeeded[i - 1]),
    ensures
        succeeded.len() > 0 ==> succeeded[0],
        forall|i: int| 1 <= i < succeeded.len() ==> !succeeded[i],
        forall|i: int| 1 <= i < states.len() ==> states[i],
{
    if succeeded.len() > 0 {
        assert(claim_step(states[0], states[1], succeeded[0]));
    }
    assert forall|i: int| 1 <= i < succeeded.len() implies !succeeded[i] by {
        assert(states[i] && states[i + 1]);
    }
}

} // verus!
