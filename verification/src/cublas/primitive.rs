//! What is handed to the vendor library for one multiplication.
//!
//! A [`Primitive`] is one entry point of the vendor library with its
//! arguments marshalled; a [`Dispatch`] adds the handle and the three
//! operands, each tied to the stream of the context. Which entry point
//! multiplies is a matter of the numeric representation: [`GemvElement`] and
//! [`GemmElement`] say it for each representation that has one.

use crate::cublas::result::{outcome, CublasError, Stage};
use crate::cublas::safe::{GemmConfig, GemvConfig, StridedBatchedConfig};
use crate::cublas::shape::Operand;
use crate::cublas::sys::{
    cublasComputeType_t, cublasGemmAlgo_t, cublasHandle_t, cublasStatus_t, cudaDataType_t,
};
use crate::driver::Capture;
use crate::scalar::{BFloat16, Binary32, Binary64, Element};
use vstd::prelude::*;

verus! {

/// One entry point of the vendor library, with every argument but the handle
/// and the operand addresses.
///
/// The coefficients are host values: the caller keeps them in host memory
/// for the length of the call and passes their addresses.
#[derive(Debug, Copy, Clone, PartialEq, Eq)]
#[allow(inconsistent_fields)]
pub enum Primitive {
    /// Matrix-vector product in binary32.
    Sgemv(GemvConfig<Binary32>),
    /// Matrix-vector product in binary64.
    Dgemv(GemvConfig<Binary64>),
    /// Matrix product in binary32.
    Sgemm(GemmConfig<Binary32>),
    /// Matrix product in binary64.
    Dgemm(GemmConfig<Binary64>),
    /// Matrix product on operands of the given storage formats, with
    /// binary32 coefficients.
    GemmEx {
        cfg: GemmConfig<Binary32>,
        a_type: cudaDataType_t,
        b_type: cudaDataType_t,
        c_type: cudaDataType_t,
        compute_type: cublasComputeType_t,
        algo: cublasGemmAlgo_t,
    },
    /// Batch of matrix products in binary32.
    SgemmStridedBatched(StridedBatchedConfig<Binary32>),
    /// Batch of matrix products in binary64.
    DgemmStridedBatched(StridedBatchedConfig<Binary64>),
    /// Batch of matrix products on operands of the given storage formats,
    /// with binary32 coefficients.
    GemmStridedBatchedEx {
        cfg: StridedBatchedConfig<Binary32>,
        a_type: cudaDataType_t,
        b_type: cudaDataType_t,
        c_type: cudaDataType_t,
        compute_type: cublasComputeType_t,
        algo: cublasGemmAlgo_t,
    },
}

impl Primitive {
    /// The number of multiplications that the primitive performs: the batch
    /// size of a batch, one otherwise.
    pub open spec fn repetitions(self) -> int {
        match self {
            Primitive::SgemmStridedBatched(cfg) => cfg.batch_size as int,
            Primitive::DgemmStridedBatched(cfg) => cfg.batch_size as int,
            Primitive::GemmStridedBatchedEx { cfg, .. } => cfg.batch_size as int,
            _ => 1,
        }
    }

    /// The multiplication that each repetition performs: for a batch, the
    /// plain matrix product of its shape and coefficients; otherwise the
    /// primitive itself.
    pub open spec fn member(self) -> Primitive {
        match self {
            Primitive::SgemmStridedBatched(cfg) => Primitive::Sgemm(cfg.gemm),
            Primitive::DgemmStridedBatched(cfg) => Primitive::Dgemm(cfg.gemm),
            Primitive::GemmStridedBatchedEx {
                cfg,
                a_type,
                b_type,
                c_type,
                compute_type,
                algo,
            } => Primitive::GemmEx { cfg: cfg.gemm, a_type, b_type, c_type, compute_type, algo },
            plain => plain,
        }
    }

    /// Where, in elements from the start of the buffer, the repetition
    /// `index` finds the given operand.
    pub open spec fn offset(self, operand: Operand, index: int) -> int {
        match self {
            Primitive::SgemmStridedBatched(cfg) => cfg.offset(operand, index),
            Primitive::DgemmStridedBatched(cfg) => cfg.offset(operand, index),
            Primitive::GemmStridedBatchedEx { cfg, .. } => cfg.offset(operand, index),
            _ => 0,
        }
    }
}

/// The matrix product on operands stored as `data_type`, with binary32
/// coefficients and binary32 accumulation, by the library's default
/// algorithm.
pub open spec fn gemm_ex_primitive(data_type: cudaDataType_t, cfg: GemmConfig<Binary32>)
    -> Primitive {
    Primitive::GemmEx {
        cfg,
        a_type: data_type,
        b_type: data_type,
        c_type: data_type,
        compute_type: cublasComputeType_t::CUBLAS_COMPUTE_32F,
        algo: cublasGemmAlgo_t::CUBLAS_GEMM_DEFAULT,
    }
}

/// The batch of matrix products on operands stored as `data_type`, with
/// binary32 coefficients and binary32 accumulation, by the library's default
/// algorithm.
pub open spec fn gemm_strided_batched_ex_primitive(
    data_type: cudaDataType_t,
    cfg: StridedBatchedConfig<Binary32>,
) -> Primitive {
    Primitive::GemmStridedBatchedEx {
        cfg,
        a_type: data_type,
        b_type: data_type,
        c_type: data_type,
        compute_type: cublasComputeType_t::CUBLAS_COMPUTE_32F,
        algo: cublasGemmAlgo_t::CUBLAS_GEMM_DEFAULT,
    }
}

/// Marshals a matrix product on operands stored as `data_type`.
pub fn marshal_gemm_ex(data_type: cudaDataType_t, cfg: GemmConfig<Binary32>) -> (primitive:
    Primitive)
    ensures
        primitive == gemm_ex_primitive(data_type, cfg),
{
    Primitive::GemmEx {
        cfg,
        a_type: data_type,
        b_type: data_type,
        c_type: data_type,
        compute_type: cublasComputeType_t::CUBLAS_COMPUTE_32F,
        algo: cublasGemmAlgo_t::CUBLAS_GEMM_DEFAULT,
    }
}

/// Marshals a batch of matrix products on operands stored as `data_type`.
pub fn marshal_gemm_strided_batched_ex(
    data_type: cudaDataType_t,
    cfg: StridedBatchedConfig<Binary32>,
) -> (primitive: Primitive)
    ensures
        primitive == gemm_strided_batched_ex_primitive(data_type, cfg),
{
    Primitive::GemmStridedBatchedEx {
        cfg,
        a_type: data_type,
        b_type: data_type,
        c_type: data_type,
        compute_type: cublasComputeType_t::CUBLAS_COMPUTE_32F,
        algo: cublasGemmAlgo_t::CUBLAS_GEMM_DEFAULT,
    }
}

/// A shape with its bfloat16 coefficients widened to binary32.
pub open spec fn widened_gemm(cfg: GemmConfig<BFloat16>) -> GemmConfig<Binary32> {
    GemmConfig {
        transa: cfg.transa,
        transb: cfg.transb,
        m: cfg.m,
        n: cfg.n,
        k: cfg.k,
        alpha: cfg.alpha.widened(),
        lda: cfg.lda,
        ldb: cfg.ldb,
        beta: cfg.beta.widened(),
        ldc: cfg.ldc,
    }
}

/// A batch with its bfloat16 coefficients widened to binary32.
pub open spec fn widened_batch(cfg: StridedBatchedConfig<BFloat16>) -> StridedBatchedConfig<
    Binary32,
> {
    StridedBatchedConfig {
        gemm: widened_gemm(cfg.gemm),
        batch_size: cfg.batch_size,
        stride_a: cfg.stride_a,
        stride_b: cfg.stride_b,
        stride_c: cfg.stride_c,
    }
}

/// Widens the coefficients of a shape. The shape itself is kept.
pub fn widen_gemm(cfg: GemmConfig<BFloat16>) -> (wide: GemmConfig<Binary32>)
    ensures
        wide == widened_gemm(cfg),
{
    GemmConfig {
        transa: cfg.transa,
        transb: cfg.transb,
        m: cfg.m,
        n: cfg.n,
        k: cfg.k,
        alpha: cfg.alpha.to_binary32(),
        lda: cfg.lda,
        ldb: cfg.ldb,
        beta: cfg.beta.to_binary32(),
        ldc: cfg.ldc,
    }
}

/// A representation for which the vendor library has a matrix-vector
/// product.
pub trait GemvElement: Element {
    /// The primitive that multiplies in this representation.
    spec fn gemv_primitive(cfg: GemvConfig<Self>) -> Primitive;

    /// Marshals the product for the primitive of this representation.
    fn marshal_gemv(cfg: GemvConfig<Self>) -> (primitive: Primitive)
        ensures
            primitive == Self::gemv_primitive(cfg),
    ;
}

/// A representation for which the vendor library has a matrix product. A
/// sixteen-bit representation has its coefficients widened to binary32, in
/// which the library accumulates.
pub trait GemmElement: Element {
    /// The primitive that multiplies in this representation.
    spec fn gemm_primitive(cfg: GemmConfig<Self>) -> Primitive;

    /// The primitive that multiplies batches in this representation.
    spec fn gemm_strided_batched_primitive(cfg: StridedBatchedConfig<Self>) -> Primitive;

    /// Marshals the product for the primitive of this representation.
    fn marshal_gemm(cfg: GemmConfig<Self>) -> (primitive: Primitive)
        ensures
            primitive == Self::gemm_primitive(cfg),
    ;

    /// Marshals the batch for the primitive of this representation.
    fn marshal_gemm_strided_batched(cfg: StridedBatchedConfig<Self>) -> (primitive: Primitive)
        ensures
            primitive == Self::gemm_strided_batched_primitive(cfg),
    ;

    /// The batch primitive of a representation repeats its plain primitive:
    /// each repetition is the plain product of the batch's shape, it is
    /// repeated `batch_size` times, and the repetition `index` finds each
    /// operand `index` strides from the start.
    proof fn lemma_batch_repeats_gemm(cfg: StridedBatchedConfig<Self>)
        ensures
            Self::gemm_strided_batched_primitive(cfg).member() == Self::gemm_primitive(cfg.gemm),
            Self::gemm_strided_batched_primitive(cfg).repetitions() == cfg.batch_size,
            forall|operand: Operand, index: int|
                #[trigger] Self::gemm_strided_batched_primitive(cfg).offset(operand, index)
                    == cfg.stride(operand) * index,
    ;
}

impl GemvElement for Binary32 {
    open spec fn gemv_primitive(cfg: GemvConfig<Binary32>) -> Primitive {
        Primitive::Sgemv(cfg)
    }

    fn marshal_gemv(cfg: GemvConfig<Binary32>) -> (primitive: Primitive) {
        Primitive::Sgemv(cfg)
    }
}

impl GemvElement for Binary64 {
    open spec fn gemv_primitive(cfg: GemvConfig<Binary64>) -> Primitive {
        Primitive::Dgemv(cfg)
    }

    fn marshal_gemv(cfg: GemvConfig<Binary64>) -> (primitive: Primitive) {
        Primitive::Dgemv(cfg)
    }
}

impl GemmElement for Binary32 {
    open spec fn gemm_primitive(cfg: GemmConfig<Binary32>) -> Primitive {
        Primitive::Sgemm(cfg)
    }

    open spec fn gemm_strided_batched_primitive(cfg: StridedBatchedConfig<Binary32>)
        -> Primitive {
        Primitive::SgemmStridedBatched(cfg)
    }

    fn marshal_gemm(cfg: GemmConfig<Binary32>) -> (primitive: Primitive) {
        Primitive::Sgemm(cfg)
    }

    fn marshal_gemm_strided_batched(cfg: StridedBatchedConfig<Binary32>) -> (primitive:
        Primitive) {
        Primitive::SgemmStridedBatched(cfg)
    }

    proof fn lemma_batch_repeats_gemm(cfg: StridedBatchedConfig<Binary32>) {
    }
}

impl GemmElement for Binary64 {
    open spec fn gemm_primitive(cfg: GemmConfig<Binary64>) -> Primitive {
        Primitive::Dgemm(cfg)
    }

    open spec fn gemm_strided_batched_primitive(cfg: StridedBatchedConfig<Binary64>)
        -> Primitive {
        Primitive::DgemmStridedBatched(cfg)
    }

    fn marshal_gemm(cfg: GemmConfig<Binary64>) -> (primitive: Primitive) {
        Primitive::Dgemm(cfg)
    }

    fn marshal_gemm_strided_batched(cfg: StridedBatchedConfig<Binary64>) -> (primitive:
        Primitive) {
        Primitive::DgemmStridedBatched(cfg)
    }

    proof fn lemma_batch_repeats_gemm(cfg: StridedBatchedConfig<Binary64>) {
    }
}

impl GemmElement for BFloat16 {
    open spec fn gemm_primitive(cfg: GemmConfig<BFloat16>) -> Primitive {
        gemm_ex_primitive(cudaDataType_t::CUDA_R_16BF, widened_gemm(cfg))
    }

    open spec fn gemm_strided_batched_primitive(cfg: StridedBatchedConfig<BFloat16>)
        -> Primitive {
        gemm_strided_batched_ex_primitive(cudaDataType_t::CUDA_R_16BF, widened_batch(cfg))
    }

    fn marshal_gemm(cfg: GemmConfig<BFloat16>) -> (primitive: Primitive) {
        marshal_gemm_ex(cudaDataType_t::CUDA_R_16BF, widen_gemm(cfg))
    }

    fn marshal_gemm_strided_batched(cfg: StridedBatchedConfig<BFloat16>) -> (primitive:
        Primitive) {
        let wide = StridedBatchedConfig {
            gemm: widen_gemm(cfg.gemm),
            batch_size: cfg.batch_size,
            stride_a: cfg.stride_a,
            stride_b: cfg.stride_b,
            stride_c: cfg.stride_c,
        };
        marshal_gemm_strided_batched_ex(cudaDataType_t::CUDA_R_16BF, wide)
    }

    proof fn lemma_batch_repeats_gemm(cfg: StridedBatchedConfig<BFloat16>) {
    }
}

/// One multiplication, ready to be handed to the vendor library.
///
/// The three operands are tied to the context's stream before the primitive
/// is invoked, and stay tied until it has returned: see [`Dispatch::schedule`].
#[derive(Debug, Copy, Clone, PartialEq, Eq)]
pub struct Dispatch {
    /// The handle that the primitive is invoked on.
    pub handle: cublasHandle_t,
    /// The first factor, read.
    pub a: Capture,
    /// The second factor, read.
    pub b: Capture,
    /// The output, written.
    pub c: Capture,
    /// The entry point and its arguments.
    pub primitive: Primitive,
}

/// One step of carrying out a [`Dispatch`].
#[derive(Debug, Copy, Clone, PartialEq, Eq)]
pub enum Step {
    /// Tie the buffer to the stream: everything that wrote it before is
    /// ordered before what the stream does next.
    Capture(Capture),
    /// Invoke the primitive on the handle and the three captured addresses.
    Invoke,
    /// Let go of the buffer: the invocation becomes its latest use.
    Release(Capture),
}

impl Dispatch {
    /// The steps of the dispatch, in order: the operands are captured in the
    /// order `a`, `b`, `c`, then the primitive is invoked, then the operands
    /// are released in the opposite order.
    pub open spec fn schedule_spec(self) -> Seq<Step> {
        seq![
            Step::Capture(self.a),
            Step::Capture(self.b),
            Step::Capture(self.c),
            Step::Invoke,
            Step::Release(self.c),
            Step::Release(self.b),
            Step::Release(self.a),
        ]
    }

    /// The steps of the dispatch, in the order in which they are to be
    /// carried out.
    pub fn schedule(&self) -> (steps: Vec<Step>)
        ensures
            steps@ == self.schedule_spec(),
    {
        vec![
            Step::Capture(self.a),
            Step::Capture(self.b),
            Step::Capture(self.c),
            Step::Invoke,
            Step::Release(self.c),
            Step::Release(self.b),
            Step::Release(self.a),
        ]
    }

    /// What the dispatch amounts to, given the status that the primitive
    /// returned. There is no partial success: any status but success is a
    /// compute failure, after which the output buffer must not be read.
    pub fn complete(&self, status: cublasStatus_t) -> (result: Result<(), CublasError>)
        ensures
            result == outcome(Stage::Compute, status),
    {
        status.result(Stage::Compute)
    }
}

} // verus!
