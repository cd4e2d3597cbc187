//! From the status of a vendor call to a typed failure.
//!
//! Every status but success is a failure, and a failure is final: nothing is
//! retried. The kind of the failure says which stage of the work the call
//! belonged to; the status says what the vendor library reported.

use crate::cublas::sys::cublasStatus_t;
use vstd::prelude::*;

verus! {

/// A call into the vendor library that did not succeed.
#[derive(Clone, Copy, Debug, PartialEq, Eq, Hash, Structural)]
pub enum CublasError {
    /// No handle could be allocated.
    HandleCreation(cublasStatus_t),
    /// The library rejected a stream binding or a change of pointer mode.
    Configuration(cublasStatus_t),
    /// A multiply primitive reported a failure. The contents of its output
    /// buffer are then unspecified.
    Compute(cublasStatus_t),
}

/// The stage of the work that a vendor call belongs to.
#[derive(Clone, Copy, Debug, PartialEq, Eq, Hash, Structural)]
pub enum Stage {
    HandleCreation,
    Configuration,
    Compute,
}

impl CublasError {
    /// The failure of a call of the given stage with the given status.
    pub open spec fn at(stage: Stage, status: cublasStatus_t) -> CublasError {
        match stage {
            Stage::HandleCreation => CublasError::HandleCreation(status),
            Stage::Configuration => CublasError::Configuration(status),
            Stage::Compute => CublasError::Compute(status),
        }
    }

    /// The status that the vendor library reported.
    pub open spec fn status_spec(self) -> cublasStatus_t {
        match self {
            CublasError::HandleCreation(status) => status,
            CublasError::Configuration(status) => status,
            CublasError::Compute(status) => status,
        }
    }

    /// The stage of the work that failed.
    pub open spec fn stage_spec(self) -> Stage {
        match self {
            CublasError::HandleCreation(_) => Stage::HandleCreation,
            CublasError::Configuration(_) => Stage::Configuration,
            CublasError::Compute(_) => Stage::Compute,
        }
    }

    /// The status that the vendor library reported.
    #[verifier::when_used_as_spec(status_spec)]
    pub fn status(self) -> (status: cublasStatus_t)
        ensures
            status == self.status_spec(),
    {
        match self {
            CublasError::HandleCreation(status) => status,
            CublasError::Configuration(status) => status,
            CublasError::Compute(status) => status,
        }
    }

    /// The stage of the work that failed.
    #[verifier::when_used_as_spec(stage_spec)]
    pub fn stage(self) -> (stage: Stage)
        ensures
            stage == self.stage_spec(),
    {
        match self {
            CublasError::HandleCreation(_) => Stage::HandleCreation,
            CublasError::Configuration(_) => Stage::Configuration,
            CublasError::Compute(_) => Stage::Compute,
        }
    }
}

/// What a call of the given stage amounts to, given the status it returned:
/// success for the success status, and for every other status the failure of
/// that stage with that status.
pub open spec fn outcome(stage: Stage, status: cublasStatus_t) -> Result<(), CublasError> {
    if status.is_success_spec() {
        Ok(())
    } else {
        Err(CublasError::at(stage, status))
    }
}

impl cublasStatus_t {
    /// Turns the status of a call of the given stage into a result.
    pub fn result(self, stage: Stage) -> (result: Result<(), CublasError>)
        ensures
            result == outcome(stage, self),
            result.is_ok() <==> self.code_spec() == 0,
    {
        if self.is_success() {
            Ok(())
        } else {
            match stage {
                Stage::HandleCreation => Err(CublasError::HandleCreation(self)),
                Stage::Configuration => Err(CublasError::Configuration(self)),
                Stage::Compute => Err(CublasError::Compute(self)),
            }
        }
    }
}

/// The release of a handle failed. Nothing can be done about it: the caller
/// is expected to stop.
#[derive(Clone, Copy, Debug, PartialEq, Eq, Hash, Structural)]
pub struct Fatal {
    /// The status that the vendor library reported.
    pub status: cublasStatus_t,
}

/// What the release of a handle amounts to, given the status it returned.
pub open spec fn released(status: cublasStatus_t) -> Result<(), Fatal> {
    if status.is_success_spec() {
        Ok(())
    } else {
        Err(Fatal { status })
    }
}

impl cublasStatus_t {
    /// Turns the status of the release of a handle into a result.
    pub fn release_result(self) -> (result: Result<(), Fatal>)
        ensures
            result == released(self),
    {
        if self.is_success() {
            Ok(())
        } else {
            Err(Fatal { status: self })
        }
    }
}

/// The error carries the stage and the status it was made from, and a status
/// is an error exactly when it is not success.
pub proof fn lemma_outcome_carries_status(stage: Stage, status: cublasStatus_t)
    ensures
        outcome(stage, status) is Ok <==> status == cublasStatus_t::CUBLAS_STATUS_SUCCESS,
        outcome(stage, status) matches Err(e) ==> e.status_spec() == status && e.stage_spec()
            == stage,
{
}

} // verus!
