//! The making of a compute context.
//!
//! A context needs two calls into the vendor library, one that allocates the
//! handle and one that binds it to the stream, and a third that releases the
//! handle if the second fails. [`Construction`] is the state between those
//! calls: it names the next [`Request`] and takes the [`Reply`] to it.

use crate::cublas::result::{CublasError, Fatal};
use crate::cublas::safe::{BlasState, CudaBlas};
use crate::cublas::sys::{cublasHandle_t, cublasPointerMode_t, cublasStatus_t};
use crate::driver::CudaStream;
use std::sync::Arc;
use vstd::prelude::*;

verus! {

/// One call into the vendor library that concerns the handle itself.
#[derive(Debug, Copy, Clone, PartialEq, Eq, Hash, Structural)]
pub enum Request {
    /// Make `context` the calling thread's accelerator context, then
    /// allocate a handle.
    Create { context: usize },
    /// Make the stream at `stream` the handle's active stream.
    SetStream { handle: cublasHandle_t, stream: usize },
    /// Set where the handle reads coefficients from.
    SetPointerMode { handle: cublasHandle_t, mode: cublasPointerMode_t },
    /// Ask where the handle reads coefficients from.
    GetPointerMode { handle: cublasHandle_t },
    /// Release the handle.
    Destroy { handle: cublasHandle_t },
}

/// What came back from a [`Request`].
#[derive(Debug, Copy, Clone, PartialEq, Eq, Hash, Structural)]
pub enum Reply {
    /// From [`Request::Create`]: the status, and the handle that was
    /// allocated if the status is success.
    Created { status: cublasStatus_t, handle: cublasHandle_t },
    /// From a request that returns nothing but its status.
    Completed { status: cublasStatus_t },
}

/// The making of a compute context, one vendor call at a time.
///
/// [`CudaBlas::new`] starts it. While [`Construction::request`] names a
/// request, the caller performs it and hands the reply to
/// [`Construction::step`]. It ends in [`Construction::Ready`] with the
/// context, in [`Construction::Failed`] with the reason, or in
/// [`Construction::Aborted`].
///
/// A handle that was allocated and could not be bound to the stream is
/// released before the failure is reported, so a failed construction leaves
/// nothing behind.
#[derive(Debug)]
pub enum Construction {
    /// There is no handle yet. The request allocates one.
    Allocating { stream: Arc<CudaStream> },
    /// There is a handle. The request binds it to the stream.
    Binding { handle: cublasHandle_t, stream: Arc<CudaStream> },
    /// The library refused the binding with the status `cause`. The request
    /// releases the handle.
    Releasing { handle: cublasHandle_t, cause: cublasStatus_t },
    /// The context is made.
    Ready { blas: CudaBlas },
    /// No context was made, and no handle is left.
    Failed { error: CublasError },
    /// The release of the handle failed.
    Aborted { fatal: Fatal },
}

/// What a [`Construction`] is, to its contracts.
pub enum ConstructionState {
    Allocating { stream: CudaStream },
    Binding { handle: cublasHandle_t, stream: CudaStream },
    Releasing { handle: cublasHandle_t, cause: cublasStatus_t },
    Ready { blas: BlasState },
    Failed { error: CublasError },
    Aborted { fatal: Fatal },
}

impl View for Construction {
    type V = ConstructionState;

    open spec fn view(&self) -> ConstructionState {
        match self {
            Construction::Allocating { stream } => ConstructionState::Allocating {
                stream: **stream,
            },
            Construction::Binding { handle, stream } => ConstructionState::Binding {
                handle: *handle,
                stream: **stream,
            },
            Construction::Releasing { handle, cause } => ConstructionState::Releasing {
                handle: *handle,
                cause: *cause,
            },
            Construction::Ready { blas } => ConstructionState::Ready { blas: blas@ },
            Construction::Failed { error } => ConstructionState::Failed { error: *error },
            Construction::Aborted { fatal } => ConstructionState::Aborted { fatal: *fatal },
        }
    }
}

impl ConstructionState {
    /// What is to be asked of the vendor library next; nothing once the
    /// construction has ended.
    pub open spec fn request(self) -> Option<Request> {
        match self {
            ConstructionState::Allocating { stream } => Some(
                Request::Create { context: stream.context },
            ),
            ConstructionState::Binding { handle, stream } => Some(
                Request::SetStream { handle, stream: stream.cu_stream },
            ),
            ConstructionState::Releasing { handle, .. } => Some(Request::Destroy { handle }),
            _ => None,
        }
    }

    /// The state after `reply`.
    ///
    /// An allocation that reports success and a handle leads on to the
    /// binding; any other reply to it is a failure to create a handle, with
    /// the status it carried. A binding that succeeds makes the context,
    /// which reads its coefficients from the host; one that fails leads to
    /// the release of the handle, after which the failure is one of
    /// configuration, with the status of the binding. A release that fails
    /// aborts. A reply of the wrong kind, or one to a construction that has
    /// ended, changes nothing.
    pub open spec fn step(self, reply: Reply) -> ConstructionState {
        match (self, reply) {
            (ConstructionState::Allocating { stream }, Reply::Created { status, handle }) => {
                if status.is_success_spec() && !handle.is_null_spec() {
                    ConstructionState::Binding { handle, stream }
                } else {
                    ConstructionState::Failed { error: CublasError::HandleCreation(status) }
                }
            },
            (ConstructionState::Binding { handle, stream }, Reply::Completed { status }) => {
                if status.is_success_spec() {
                    ConstructionState::Ready {
                        blas: BlasState {
                            handle,
                            stream,
                            pointer_mode: cublasPointerMode_t::CUBLAS_POINTER_MODE_HOST,
                        },
                    }
                } else {
                    ConstructionState::Releasing { handle, cause: status }
                }
            },
            (ConstructionState::Releasing { handle, cause }, Reply::Completed { status }) => {
                if status.is_success_spec() {
                    ConstructionState::Failed { error: CublasError::Configuration(cause) }
                } else {
                    ConstructionState::Aborted { fatal: Fatal { status } }
                }
            },
            _ => self,
        }
    }

    /// The handle that the construction has allocated and not yet asked to
    /// have released.
    pub open spec fn owned(self) -> Option<cublasHandle_t> {
        match self {
            ConstructionState::Binding { handle, .. } => Some(handle),
            ConstructionState::Releasing { handle, .. } => Some(handle),
            ConstructionState::Ready { blas } => Some(blas.handle),
            _ => None,
        }
    }

    /// How many handles the construction owns: one or none.
    pub open spec fn owned_count(self) -> nat {
        if self.owned() is Some {
            1
        } else {
            0
        }
    }

    /// Whether the construction has ended: it asks for nothing more.
    pub open spec fn has_ended(self) -> bool {
        self is Ready || self is Failed || self is Aborted
    }

    /// Whether `reply` hands the construction a handle.
    pub open spec fn acquires(self, reply: Reply) -> bool {
        self is Allocating && self.step(reply) is Binding
    }

    /// Whether `reply` answers a release of the handle.
    pub open spec fn releases(self, reply: Reply) -> bool {
        self is Releasing && reply is Completed
    }

    /// The state after all of `replies`, one after the other.
    pub open spec fn run(self, replies: Seq<Reply>) -> ConstructionState
        decreases replies.len(),
    {
        if replies.len() == 0 {
            self
        } else {
            self.step(replies[0]).run(replies.drop_first())
        }
    }

    /// How many times, over all of `replies`, the construction was handed a
    /// handle.
    pub open spec fn acquired_over(self, replies: Seq<Reply>) -> nat
        decreases replies.len(),
    {
        if replies.len() == 0 {
            0
        } else {
            let after = self.step(replies[0]).acquired_over(replies.drop_first());
            if self.acquires(replies[0]) {
                after + 1
            } else {
                after
            }
        }
    }

    /// How many times, over all of `replies`, a release of the handle was
    /// answered.
    pub open spec fn released_over(self, replies: Seq<Reply>) -> nat
        decreases replies.len(),
    {
        if replies.len() == 0 {
            0
        } else {
            let after = self.step(replies[0]).released_over(replies.drop_first());
            if self.releases(replies[0]) {
                after + 1
            } else {
                after
            }
        }
    }
}

impl Construction {
    /// What is to be asked of the vendor library next; nothing once the
    /// construction has ended.
    pub fn request(&self) -> (request: Option<Request>)
        ensures
            request == self@.request(),
    {
        match self {
            Construction::Allocating { stream } => Some(
                Request::Create { context: stream.context },
            ),
            Construction::Binding { handle, stream } => Some(
                Request::SetStream { handle: *handle, stream: stream.cu_stream },
            ),
            Construction::Releasing { handle, .. } => Some(Request::Destroy { handle: *handle }),
            _ => None,
        }
    }

    /// Takes the reply to the pending request and moves on.
    pub fn step(self, reply: Reply) -> (next: Construction)
        ensures
            next@ == self@.step(reply),
    {
        match self {
            Construction::Allocating { stream } => match reply {
                Reply::Created { status, handle } => {
                    if status.is_success() && !handle.is_null() {
                        Construction::Binding { handle, stream }
                    } else {
                        Construction::Failed { error: CublasError::HandleCreation(status) }
                    }
                },
                _ => Construction::Allocating { stream },
            },
            Construction::Binding { handle, stream } => match reply {
                Reply::Completed { status } => {
                    if status.is_success() {
                        Construction::Ready { blas: CudaBlas::fresh(handle, stream) }
                    } else {
                        Construction::Releasing { handle, cause: status }
                    }
                },
                _ => Construction::Binding { handle, stream },
            },
            Construction::Releasing { handle, cause } => match reply {
                Reply::Completed { status } => {
                    if status.is_success() {
                        Construction::Failed { error: CublasError::Configuration(cause) }
                    } else {
                        Construction::Aborted { fatal: Fatal { status } }
                    }
                },
                _ => Construction::Releasing { handle, cause },
            },
            ended => ended,
        }
    }
}

} // verus!
