//! Declarations of the outside types that appear in the library's signatures.

use vstd::prelude::*;

verus! {

/// Relies on `anyhow::Error`: the error type that worker implementations and
/// the run functions report with. The library never builds or inspects one,
/// it only passes values through.
#[verifier::external_type_specification]
#[verifier::external_body]
pub struct ExAnyhowError(anyhow::Error);

/// Relies on `ignore::WalkParallel`: the configured parallel directory
/// walker a `PathWorker` builds. The caller runs it and translates what it
/// reports into [`crate::Entry`] values; the library never looks inside.
#[verifier::external_type_specification]
#[verifier::external_body]
pub struct ExWalkParallel(ignore::WalkParallel);

} // verus!
