use vstd::prelude::*;

verus! {

/// ero::NoProcError: the marker returned when a process no longer accepts
/// requests. It is only carried through, never inspected.
#[verifier::external_type_specification]
#[verifier::external_body]
pub struct ExNoProcError(ero::NoProcError);

} // verus!
