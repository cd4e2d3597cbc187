//! What holds of the context and of the dispatch as a whole.
//!
//! Each function here is a theorem about the functions of
//! [`crate::cublas::safe`], proved from their definitions.

use crate::cublas::result::{outcome, CublasError, Fatal, Stage};
use crate::cublas::safe::{
    gemm_ex_primitive, gemm_strided_batched_ex_primitive, BlasState, ConstructionState, CudaBlas,
    Dispatch, GemmConfig, GemmElement, Primitive, GemvConfig, Reply, Request, Step,
    StridedBatchedConfig,
};
use crate::cublas::shape::{
    lemma_batch_member_fits, lemma_matrix_elements_within_extent,
    lemma_vector_elements_within_extent, Operand,
};
use crate::cublas::sys::{cublasHandle_t, cublasPointerMode_t, cublasStatus_t, cudaDataType_t};
use crate::driver::{Access, CudaStream, DeviceSlice};
use crate::scalar::Binary32;
use vstd::prelude::*;

verus! {

/// A batch of one is the plain product: it goes to the same handle, ties the
/// same buffers to the same stream, multiplies with the same shape and the
/// same coefficients, finds each operand at the start of its buffer, and
/// stays within the buffers exactly when the plain product does.
pub proof fn lemma_batch_of_one_is_gemm<T: GemmElement>(
    blas: CudaBlas,
    cfg: StridedBatchedConfig<T>,
    a: DeviceSlice<T>,
    b: DeviceSlice<T>,
    c: DeviceSlice<T>,
)
    requires
        cfg.batch_size == 1,
    ensures
        ({
            let batch = blas@.dispatch(T::gemm_strided_batched_primitive(cfg), a, b, c);
            let plain = blas@.dispatch(T::gemm_primitive(cfg.gemm), a, b, c);
            &&& batch.handle == plain.handle
            &&& batch.a == plain.a
            &&& batch.b == plain.b
            &&& batch.c == plain.c
            &&& batch.primitive.member() == plain.primitive
            &&& batch.primitive.repetitions() == 1
            &&& forall|operand: Operand, index: int|
                0 <= index < batch.primitive.repetitions() ==> #[trigger] batch.primitive.offset(
                    operand,
                    index,
                ) == 0
        }),
        cfg.in_bounds(a.len() as int, b.len() as int, c.len() as int) <==> cfg.gemm.in_bounds(
            a.len() as int,
            b.len() as int,
            c.len() as int,
        ),
{
    T::lemma_batch_repeats_gemm(cfg);
    let primitive = T::gemm_strided_batched_primitive(cfg);
    assert forall|operand: Operand, index: int| 0 <= index < primitive.repetitions() implies (
    #[trigger] primitive.offset(operand, index)) == 0 by {
        assert(index == 0);
    }
}

/// The same for the mixed-precision entry points: a batch of one is the
/// plain product on the same storage format.
pub proof fn lemma_batch_of_one_is_gemm_ex(
    data_type: cudaDataType_t,
    cfg: StridedBatchedConfig<Binary32>,
)
    requires
        cfg.batch_size == 1,
    ensures
        gemm_strided_batched_ex_primitive(data_type, cfg).member() == gemm_ex_primitive(
            data_type,
            cfg.gemm,
        ),
        gemm_strided_batched_ex_primitive(data_type, cfg).repetitions() == 1,
        forall|operand: Operand|
            #[trigger] gemm_strided_batched_ex_primitive(data_type, cfg).offset(operand, 0) == 0,
        forall|a_len: int, b_len: int, c_len: int|
            0 <= a_len && 0 <= b_len && 0 <= c_len ==> (#[trigger] cfg.in_bounds(
                a_len,
                b_len,
                c_len,
            ) <==> cfg.gemm.in_bounds(a_len, b_len, c_len)),
{
}

/// A shape that stays within its buffers addresses nothing outside them.
///
/// The vendor library finds element `i` of `x` at `i * |incx|`, element `i`
/// of `y` at `i * |incy|`, and, where the leading dimension is at least the
/// number of rows, element `(i, j)` of `A` at `i + j * lda`. Each of these
/// lies within the buffer it belongs to.
pub proof fn lemma_gemv_stays_within_buffers<T>(
    cfg: GemvConfig<T>,
    a_len: int,
    x_len: int,
    y_len: int,
    i: int,
    j: int,
)
    requires
        cfg.in_bounds(a_len, x_len, y_len),
    ensures
        0 <= i < cfg.m && 0 <= j < cfg.n && cfg.m <= cfg.lda ==> 0 <= i + j * cfg.lda < a_len,
        0 <= i < cfg.x_count() && cfg.incx >= 0 ==> 0 <= i * cfg.incx < x_len,
        0 <= i < cfg.x_count() && cfg.incx < 0 ==> 0 <= i * (-cfg.incx) < x_len,
        0 <= i < cfg.y_count() && cfg.incy >= 0 ==> 0 <= i * cfg.incy < y_len,
        0 <= i < cfg.y_count() && cfg.incy < 0 ==> 0 <= i * (-cfg.incy) < y_len,
{
    if 0 <= i < cfg.m && 0 <= j < cfg.n && cfg.m <= cfg.lda {
        lemma_matrix_elements_within_extent(cfg.m as int, cfg.n as int, cfg.lda as int, i, j);
    }
    if 0 <= i < cfg.x_count() {
        lemma_vector_elements_within_extent(cfg.x_count(), cfg.incx as int, i);
    }
    if 0 <= i < cfg.y_count() {
        lemma_vector_elements_within_extent(cfg.y_count(), cfg.incy as int, i);
    }
}

/// A matrix product that stays within its buffers addresses nothing outside
/// them: where the leading dimension of an operand is at least the number of
/// its rows, its element `(i, j)`, at `i + j * ld`, lies within its buffer.
pub proof fn lemma_gemm_stays_within_buffers<T>(
    cfg: GemmConfig<T>,
    a_len: int,
    b_len: int,
    c_len: int,
    operand: Operand,
    i: int,
    j: int,
)
    requires
        cfg.in_bounds(a_len, b_len, c_len),
        0 <= i < cfg.rows(operand),
        0 <= j < cfg.cols(operand),
        cfg.rows(operand) <= cfg.ld(operand),
    ensures
        0 <= i + j * cfg.ld(operand),
        operand == Operand::A ==> i + j * cfg.ld(operand) < a_len,
        operand == Operand::B ==> i + j * cfg.ld(operand) < b_len,
        operand == Operand::C ==> i + j * cfg.ld(operand) < c_len,
{
    lemma_matrix_elements_within_extent(
        cfg.rows(operand),
        cfg.cols(operand),
        cfg.ld(operand),
        i,
        j,
    );
}

/// A batch that stays within its buffers addresses nothing outside them:
/// element `(i, j)` of an operand of the repetition `index`, one stride
/// further on for each repetition before it, lies within its buffer.
pub proof fn lemma_batch_stays_within_buffers<T>(
    cfg: StridedBatchedConfig<T>,
    a_len: int,
    b_len: int,
    c_len: int,
    operand: Operand,
    index: int,
    i: int,
    j: int,
)
    requires
        cfg.in_bounds(a_len, b_len, c_len),
        0 <= index < cfg.batch_size,
        0 <= i < cfg.gemm.rows(operand),
        0 <= j < cfg.gemm.cols(operand),
        cfg.gemm.rows(operand) <= cfg.gemm.ld(operand),
    ensures
        0 <= cfg.offset(operand, index) + i + j * cfg.gemm.ld(operand),
        operand == Operand::A ==> cfg.offset(operand, index) + i + j * cfg.gemm.ld(operand)
            < a_len,
        operand == Operand::B ==> cfg.offset(operand, index) + i + j * cfg.gemm.ld(operand)
            < b_len,
        operand == Operand::C ==> cfg.offset(operand, index) + i + j * cfg.gemm.ld(operand)
            < c_len,
{
    let len = match operand {
        Operand::A => a_len,
        Operand::B => b_len,
        Operand::C => c_len,
    };
    lemma_matrix_elements_within_extent(
        cfg.gemm.rows(operand),
        cfg.gemm.cols(operand),
        cfg.gemm.ld(operand),
        i,
        j,
    );
    lemma_batch_member_fits(
        len,
        cfg.gemm.extent(operand),
        cfg.stride(operand),
        cfg.batch_size as int,
        index,
    );
}

/// Every dispatch of a context goes to the context's handle and ties all
/// three operands to the context's stream, the factors for reading and the
/// output for writing, each at its own address and with its own length. After
/// the context is bound to another stream, it is that stream they are tied
/// to.
pub proof fn lemma_dispatch_follows_context<T: GemmElement>(
    blas: CudaBlas,
    stream: CudaStream,
    cfg: StridedBatchedConfig<T>,
    a: DeviceSlice<T>,
    b: DeviceSlice<T>,
    c: DeviceSlice<T>,
)
    ensures
        ({
            let plain = blas@.dispatch(T::gemm_primitive(cfg.gemm), a, b, c);
            let batch = blas@.dispatch(T::gemm_strided_batched_primitive(cfg), a, b, c);
            &&& plain.handle == blas@.handle
            &&& plain.a == a.captured(blas@.stream, Access::Read)
            &&& plain.b == b.captured(blas@.stream, Access::Read)
            &&& plain.c == c.captured(blas@.stream, Access::Write)
            &&& plain.a.stream == blas@.stream.cu_stream
            &&& plain.b.stream == blas@.stream.cu_stream
            &&& plain.c.stream == blas@.stream.cu_stream
            &&& plain.a.address == a.address() && plain.a.len == a.len()
            &&& plain.b.address == b.address() && plain.b.len == b.len()
            &&& plain.c.address == c.address() && plain.c.len == c.len()
            &&& batch.handle == plain.handle
            &&& batch.a == plain.a && batch.b == plain.b && batch.c == plain.c
        }),
        ({
            let moved = blas@.rebound(stream).dispatch(T::gemm_primitive(cfg.gemm), a, b, c);
            &&& moved.handle == blas@.handle
            &&& moved.a.stream == stream.cu_stream
            &&& moved.b.stream == stream.cu_stream
            &&& moved.c.stream == stream.cu_stream
        }),
{
}

/// Dependent work on one stream needs no synchronization, and dependent work
/// on two streams is ordered by the capture.
///
/// Take a buffer that was written on `stream`, as the output of a dispatch
/// is. A context on the same stream that reads or writes it next waits for
/// nothing: the stream runs the two in the order in which they were
/// enqueued. A context on another stream is told to wait for `stream`.
pub proof fn lemma_capture_orders_after_the_writer<T>(
    blas: BlasState,
    primitive: Primitive,
    written: DeviceSlice<T>,
    before: DeviceSlice<T>,
    stream: CudaStream,
    a: DeviceSlice<T>,
    c: DeviceSlice<T>,
)
    requires
        written.is_written(before, stream),
    ensures
        blas.stream.cu_stream == stream.cu_stream ==> blas.dispatch(
            primitive,
            a,
            written,
            c,
        ).b.after is None && blas.dispatch(primitive, a, a, written).c.after is None,
        blas.stream.cu_stream != stream.cu_stream ==> blas.dispatch(
            primitive,
            a,
            written,
            c,
        ).b.after == Some(stream.cu_stream) && blas.dispatch(primitive, a, a, written).c.after
            == Some(stream.cu_stream),
        blas.dispatch(primitive, a, written, c).b.address == before.address(),
        blas.dispatch(primitive, a, written, c).b.len == before.len(),
{
}

/// The primitive is invoked while all three operands are tied to the stream:
/// every capture comes before the invocation and every release after it, and
/// what was captured last is released first.
pub proof fn lemma_schedule_brackets_invocation(dispatch: Dispatch)
    ensures
        dispatch.schedule_spec().len() == 7,
        dispatch.schedule_spec()[3] == Step::Invoke,
        forall|i: int|
            0 <= i < 3 ==> (#[trigger] dispatch.schedule_spec()[i] matches Step::Capture(capture)
                && dispatch.schedule_spec()[6 - i] == Step::Release(capture)),
        dispatch.schedule_spec()[0] == Step::Capture(dispatch.a),
        dispatch.schedule_spec()[1] == Step::Capture(dispatch.b),
        dispatch.schedule_spec()[2] == Step::Capture(dispatch.c),
{
}

/// A rebinding keeps the handle and the pointer mode and binds the context to
/// the new stream, whatever the library answers; the request asks for that
/// stream on that handle; and the answer is success for the success status
/// and otherwise a configuration failure that carries the status.
pub proof fn lemma_rebinding(blas: BlasState, stream: CudaStream, status: cublasStatus_t)
    ensures
        blas.rebound(stream).handle == blas.handle,
        blas.rebound(stream).pointer_mode == blas.pointer_mode,
        blas.rebound(stream).stream == stream,
        blas.rebound(stream).is_live() == blas.is_live(),
        outcome(Stage::Configuration, status) is Ok <==> status
            == cublasStatus_t::CUBLAS_STATUS_SUCCESS,
        !status.is_success_spec() ==> outcome(Stage::Configuration, status) == Err::<
            (),
            CublasError,
        >(CublasError::Configuration(status)),
{
}

/// A context that has just been made reads its coefficients from the host.
pub proof fn lemma_pointer_mode_starts_on_host(
    handle: cublasHandle_t,
    stream: CudaStream,
    reply: Reply,
)
    ensures
        (ConstructionState::Binding { handle, stream }).step(reply) matches ConstructionState::Ready {
            blas,
        } ==> blas.pointer_mode == cublasPointerMode_t::CUBLAS_POINTER_MODE_HOST
            && blas.handle == handle && blas.stream == stream,
{
}

/// The pointer mode round-trips: after a change that the library accepted,
/// the context is in the mode that was set, whatever it was in before; a
/// change that the library refused leaves the context as it was; and nothing
/// but the pointer mode is ever touched.
pub proof fn lemma_pointer_mode_round_trip(
    blas: BlasState,
    mode: cublasPointerMode_t,
    status: cublasStatus_t,
)
    ensures
        status.is_success_spec() ==> blas.after_pointer_mode(mode, status).pointer_mode == mode,
        !status.is_success_spec() ==> blas.after_pointer_mode(mode, status) == blas,
        blas.after_pointer_mode(mode, status).handle == blas.handle,
        blas.after_pointer_mode(mode, status).stream == blas.stream,
        blas.after_pointer_mode(mode, status).after_pointer_mode(mode, status)
            == blas.after_pointer_mode(mode, status),
{
}

/// Teardown is idempotent. The first teardown of a live context asks for the
/// release of its handle; after any teardown the context owns nothing, asks
/// for nothing more, and another teardown leaves it as it is.
pub proof fn lemma_teardown_idempotent(blas: BlasState)
    ensures
        blas.is_live() ==> blas.release() == Some(Request::Destroy { handle: blas.handle }),
        !blas.is_live() ==> blas.release() is None,
        !blas.torn_down().is_live(),
        blas.torn_down().release() is None,
        blas.torn_down().torn_down() == blas.torn_down(),
        !blas.torn_down().admits_dispatch(),
{
}

/// One reply keeps the books: the handles owned before it, and the one it
/// hands over if it does, are the handles owned after it, and the one whose
/// release it answers if it does.
pub proof fn lemma_step_conserves_handles(state: ConstructionState, reply: Reply)
    ensures
        state.owned_count() + (if state.acquires(reply) {
            1nat
        } else {
            0nat
        }) == state.step(reply).owned_count() + (if state.releases(reply) {
            1nat
        } else {
            0nat
        }),
        state.releases(reply) ==> state.request() == Some(
            Request::Destroy { handle: state.owned().unwrap() },
        ),
        state.has_ended() ==> state.step(reply) == state,
{
}

/// A construction that has ended stays as it is, whatever replies it is
/// given: it is handed no handle and no release is answered.
pub proof fn lemma_ended_construction_is_inert(state: ConstructionState, replies: Seq<Reply>)
    requires
        state.has_ended(),
    ensures
        state.run(replies) == state,
        state.acquired_over(replies) == 0,
        state.released_over(replies) == 0,
        state.request() is None,
    decreases replies.len(),
{
    if replies.len() > 0 {
        lemma_ended_construction_is_inert(state, replies.drop_first());
    }
}

/// No handle is lost and none is released twice. Over any replies whatever,
/// the handles owned at the start and those handed over are the handles
/// owned at the end and those released.
pub proof fn lemma_handles_conserved(state: ConstructionState, replies: Seq<Reply>)
    ensures
        state.owned_count() + state.acquired_over(replies) == state.run(replies).owned_count()
            + state.released_over(replies),
    decreases replies.len(),
{
    if replies.len() > 0 {
        lemma_step_conserves_handles(state, replies[0]);
        lemma_handles_conserved(state.step(replies[0]), replies.drop_first());
    }
}

/// A construction is handed at most one handle and has at most one release
/// answered, and none once it owns nothing and is past its allocation.
pub proof fn lemma_released_at_most_once(state: ConstructionState, replies: Seq<Reply>)
    ensures
        state.acquired_over(replies) <= 1,
        state.released_over(replies) <= 1,
        !(state is Allocating) ==> state.acquired_over(replies) == 0,
    decreases replies.len(),
{
    if replies.len() > 0 {
        let next = state.step(replies[0]);
        let rest = replies.drop_first();
        lemma_released_at_most_once(next, rest);
        if next.has_ended() {
            lemma_ended_construction_is_inert(next, rest);
        }
    }
}

/// Whether the construction ended because no handle could be created.
pub open spec fn creation_failed(state: ConstructionState) -> bool {
    state matches ConstructionState::Failed { error } && error is HandleCreation
}

/// A construction from its start: where it ends in failure, every handle
/// that it was handed has been released, once; where it ends with a context,
/// the context owns the one handle that was handed over, and nothing has
/// been released.
pub proof fn lemma_failed_construction_leaves_nothing(stream: CudaStream, replies: Seq<Reply>)
    ensures
        ({
            let start = ConstructionState::Allocating { stream };
            let end = start.run(replies);
            &&& (end is Failed || end is Aborted) ==> end.owned() is None
                && start.released_over(replies) == start.acquired_over(replies)
            &&& end is Ready ==> start.acquired_over(replies) == 1 && start.released_over(replies)
                == 0
            &&& creation_failed(end) ==> start.acquired_over(replies) == 0
        }),
{
    let start = ConstructionState::Allocating { stream };
    lemma_handles_conserved(start, replies);
    lemma_released_at_most_once(start, replies);
    lemma_creation_failure_means_no_handle(start, replies);
}

/// A failure to create a handle is reported only by a construction that was
/// never handed one.
proof fn lemma_creation_failure_means_no_handle(state: ConstructionState, replies: Seq<Reply>)
    requires
        !creation_failed(state),
    ensures
        creation_failed(state.run(replies)) ==> state is Allocating && state.acquired_over(
            replies,
        ) == 0,
    decreases replies.len(),
{
    if replies.len() > 0 {
        let next = state.step(replies[0]);
        let rest = replies.drop_first();
        if creation_failed(next) {
            lemma_ended_construction_is_inert(next, rest);
        } else {
            lemma_creation_failure_means_no_handle(next, rest);
            lemma_released_at_most_once(next, rest);
        }
    }
}

/// The failure that is injected to try the release: a handle is allocated,
/// the library refuses to bind it, and the handle is released before the
/// refusal is reported as a configuration failure. After that nothing more
/// is asked.
pub proof fn lemma_refused_binding_releases_handle(
    stream: CudaStream,
    handle: cublasHandle_t,
    refusal: cublasStatus_t,
)
    requires
        !handle.is_null_spec(),
        !refusal.is_success_spec(),
    ensures
        ({
            let success = cublasStatus_t::CUBLAS_STATUS_SUCCESS;
            let allocating = ConstructionState::Allocating { stream };
            let binding = allocating.step(Reply::Created { status: success, handle });
            let releasing = binding.step(Reply::Completed { status: refusal });
            let failed = releasing.step(Reply::Completed { status: success });
            &&& allocating.request() == Some(Request::Create { context: stream.context })
            &&& binding.request() == Some(
                Request::SetStream { handle, stream: stream.cu_stream },
            )
            &&& releasing.request() == Some(Request::Destroy { handle })
            &&& failed == (ConstructionState::Failed {
                error: CublasError::Configuration(refusal),
            })
            &&& failed.request() is None
            &&& failed.owned() is None
        }),
{
}

/// A release that fails aborts the construction with the status of the
/// release.
pub proof fn lemma_failed_release_aborts(
    handle: cublasHandle_t,
    cause: cublasStatus_t,
    status: cublasStatus_t,
)
    requires
        !status.is_success_spec(),
    ensures
        (ConstructionState::Releasing { handle, cause }).step(Reply::Completed { status }) == (
        ConstructionState::Aborted { fatal: Fatal { status } }),
{
}

} // verus!
