//! The endpoint identity lifecycle: `PendingEnrollment -> Enrolled ->
//! Retired`. Every other move is rejected, never silently coerced.
use vstd::prelude::*;

verus! {

/// Endpoint identity lifecycle (persistent record). Absence of a record is
/// not a state of this type: it is the absence of a value.
#[derive(Debug, Clone, Copy, PartialEq, Eq, Structural)]
pub enum IdentityState {
    PendingEnrollment,
    Enrolled,
    Retired,
}

/// A transition attempted from a state that does not permit it.
#[derive(Debug, Clone, Copy, PartialEq, Eq)]
pub struct InvalidIdentityTransition {
    pub from: IdentityState,
    pub attempted: &'static str,
}

/// The name of the state an approval moves to.
pub open spec fn enrolled_name() -> Seq<char> {
    seq!['E', 'n', 'r', 'o', 'l', 'l', 'e', 'd']
}

/// The name of the state a retirement moves to.
pub open spec fn retired_name() -> Seq<char> {
    seq!['R', 'e', 't', 'i', 'r', 'e', 'd']
}

/// `PendingEnrollment -> Enrolled`: explicit operator approval only.
pub fn approve(state: IdentityState) -> (res: Result<IdentityState, InvalidIdentityTransition>)
    ensures
        state == IdentityState::PendingEnrollment ==> res == Ok::<
            IdentityState,
            InvalidIdentityTransition,
        >(IdentityState::Enrolled),
        state != IdentityState::PendingEnrollment ==> (res matches Err(e) && e.from == state
            && e.attempted@ == enrolled_name()),
{
    match state {
        IdentityState::PendingEnrollment => Ok(IdentityState::Enrolled),
        other => {
            let attempted = "Enrolled";
            proof {
                reveal_strlit("Enrolled");
            }
            Err(InvalidIdentityTransition { from: other, attempted })
        },
    }
}

/// `Enrolled -> Retired`: explicit operator action only.
pub fn retire(state: IdentityState) -> (res: Result<IdentityState, InvalidIdentityTransition>)
    ensures
        state == IdentityState::Enrolled ==> res == Ok::<IdentityState, InvalidIdentityTransition>(
            IdentityState::Retired,
        ),
        state != IdentityState::Enrolled ==> (res matches Err(e) && e.from == state
            && e.attempted@ == retired_name()),
{
    match state {
        IdentityState::Enrolled => Ok(IdentityState::Retired),
        other => {
            let attempted = "Retired";
            proof {
                reveal_strlit("Retired");
            }
            Err(InvalidIdentityTransition { from: other, attempted })
        },
    }
}

} // verus!
