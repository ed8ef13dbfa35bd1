//! The phase order of a session role.
//!
//! Each role drives its side of the protocol through commit, accept, run,
//! a role-specific finish (verify for the Notary, prove for the Prover)
//! and close, strictly in that order. Skipping or reordering an operation
//! is an error, and nothing can be started on a closed session.

use vstd::prelude::*;

verus! {

/// One operation a session role performs.
#[derive(Debug, Clone, Copy, PartialEq, Eq, Structural)]
pub enum SessionOp {
    Commit,
    Accept,
    Run,
    Finalize,
    Close,
}

/// Where a session role stands in its lifecycle.
#[derive(Debug, Clone, Copy, PartialEq, Eq, Structural)]
pub enum SessionPhase {
    Created,
    Committed,
    Accepted,
    Ran,
    Finalized,
    Closed,
}

/// Why an operation was refused.
#[derive(Debug, Clone, Copy, PartialEq, Eq, Structural)]
pub enum PhaseError {
    /// The session is closed; nothing more can be started on it.
    Closed,
    /// The operation is not the one the current phase calls for.
    OutOfOrder,
}

/// The phase transition table: each phase admits exactly its successor
/// operation, and a closed session admits none.
pub open spec fn spec_next_phase(phase: SessionPhase, op: SessionOp) -> Result<
    SessionPhase,
    PhaseError,
> {
    match (phase, op) {
        (SessionPhase::Created, SessionOp::Commit) => Ok(SessionPhase::Committed),
        (SessionPhase::Committed, SessionOp::Accept) => Ok(SessionPhase::Accepted),
        (SessionPhase::Accepted, SessionOp::Run) => Ok(SessionPhase::Ran),
        (SessionPhase::Ran, SessionOp::Finalize) => Ok(SessionPhase::Finalized),
        (SessionPhase::Finalized, SessionOp::Close) => Ok(SessionPhase::Closed),
        (SessionPhase::Closed, _) => Err(PhaseError::Closed),
        _ => Err(PhaseError::OutOfOrder),
    }
}

/// Advance a session role by one operation, failing fast on anything out
/// of order and on every operation against a closed session.
pub fn advance_phase(phase: SessionPhase, op: SessionOp) -> (result: Result<
    SessionPhase,
    PhaseError,
>)
    ensures
        result == spec_next_phase(phase, op),
        phase is Closed ==> result == Err::<SessionPhase, PhaseError>(PhaseError::Closed),
{
    match (phase, op) {
        (SessionPhase::Created, SessionOp::Commit) => Ok(SessionPhase::Committed),
        (SessionPhase::Committed, SessionOp::Accept) => Ok(SessionPhase::Accepted),
        (SessionPhase::Accepted, SessionOp::Run) => Ok(SessionPhase::Ran),
        (SessionPhase::Ran, SessionOp::Finalize) => Ok(SessionPhase::Finalized),
        (SessionPhase::Finalized, SessionOp::Close) => Ok(SessionPhase::Closed),
        (SessionPhase::Closed, _) => Err(PhaseError::Closed),
        _ => Err(PhaseError::OutOfOrder),
    }
}

/// The only successful transitions are the five steps of the lifecycle,
/// each from its own phase.
pub proof fn lemma_phase_strict_order(phase: SessionPhase, op: SessionOp)
    ensures
        spec_next_phase(phase, op) is Ok <==> (
        (phase is Created && op is Commit) || (phase is Committed && op is Accept) || (
        phase is Accepted && op is Run) || (phase is Ran && op is Finalize) || (
        phase is Finalized && op is Close)),
{
}

} // verus!
