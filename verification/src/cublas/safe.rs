//! The compute context and the dispatch of multiply operations.
//!
//! Nothing in this module talks to the accelerator. A function here decides
//! what is to be asked of the vendor library and returns that as a value: a
//! [`Request`] for the life of the handle, a [`Dispatch`] for a
//! multiplication. The caller performs it and hands the status back to the
//! function that says what the status means. The work on the accelerator is
//! asynchronous: a status speaks of the enqueueing, not of the result.

pub use crate::cublas::construction::{Construction, ConstructionState, Reply, Request};
pub use crate::cublas::primitive::{
    gemm_ex_primitive, gemm_strided_batched_ex_primitive, marshal_gemm_ex,
    marshal_gemm_strided_batched_ex, widen_gemm, widened_batch, widened_gemm, Dispatch,
    GemmElement, GemvElement, Primitive, Step,
};
use crate::cublas::result::{outcome, CublasError, Stage};
use crate::cublas::shape::{
    batch_fits, batch_span_fits, matrix_extent, matrix_span, span_fits, vector_extent,
    vector_span, Operand,
};
use crate::cublas::sys::{
    cublasHandle_t, cublasOperation_t, cublasPointerMode_t, cublasStatus_t,
};
use crate::driver::{Access, CudaStream, DeviceSlice};
use crate::scalar::{Binary32, Element};
use std::sync::Arc;
use vstd::prelude::*;

verus! {

/// The shape and the coefficients of a matrix-vector product
/// `y = alpha * op(A) * x + beta * y`.
///
/// `A` is stored as `m` rows by `n` columns with leading dimension `lda`;
/// `trans` says what `op` is. `x` and `y` are read with the increments `incx`
/// and `incy`.
#[derive(Debug, Copy, Clone, PartialEq, Eq)]
pub struct GemvConfig<T> {
    pub trans: cublasOperation_t,
    pub m: i32,
    pub n: i32,
    pub alpha: T,
    pub lda: i32,
    pub incx: i32,
    pub beta: T,
    pub incy: i32,
}

/// The shape and the coefficients of a matrix product
/// `C = alpha * op(A) * op(B) + beta * C`.
///
/// `op(A)` has `m` rows and `k` columns, `op(B)` has `k` rows and `n`
/// columns, `C` has `m` rows and `n` columns; `lda`, `ldb` and `ldc` are the
/// leading dimensions of the matrices as they are stored.
#[derive(Debug, Copy, Clone, PartialEq, Eq)]
pub struct GemmConfig<T> {
    pub transa: cublasOperation_t,
    pub transb: cublasOperation_t,
    pub m: i32,
    pub n: i32,
    pub k: i32,
    pub alpha: T,
    pub lda: i32,
    pub ldb: i32,
    pub beta: T,
    pub ldc: i32,
}

/// A matrix product repeated `batch_size` times. Each repetition finds its
/// operands `stride_a`, `stride_b` and `stride_c` elements after those of the
/// repetition before.
#[derive(Debug, Copy, Clone, PartialEq, Eq)]
pub struct StridedBatchedConfig<T> {
    pub gemm: GemmConfig<T>,
    pub batch_size: i32,
    pub stride_a: i64,
    pub stride_b: i64,
    pub stride_c: i64,
}

/// The first operand, in the order `A`, `B`, `C`, that does not fit; none
/// where all three fit.
pub open spec fn verdict(a_fits: bool, b_fits: bool, c_fits: bool) -> Result<(), Operand> {
    if !a_fits {
        Err(Operand::A)
    } else if !b_fits {
        Err(Operand::B)
    } else if !c_fits {
        Err(Operand::C)
    } else {
        Ok(())
    }
}

impl<T> GemvConfig<T> {
    /// The number of elements of `x`: the columns of `op(A)`.
    pub open spec fn x_count(self) -> int {
        if self.trans.is_identity_spec() {
            self.n as int
        } else {
            self.m as int
        }
    }

    /// The number of elements of `y`: the rows of `op(A)`.
    pub open spec fn y_count(self) -> int {
        if self.trans.is_identity_spec() {
            self.m as int
        } else {
            self.n as int
        }
    }

    /// The number of elements that the shape reaches in the given operand.
    pub open spec fn extent(self, operand: Operand) -> int {
        match operand {
            Operand::A => matrix_extent(self.m as int, self.n as int, self.lda as int),
            Operand::B => vector_extent(self.x_count(), self.incx as int),
            Operand::C => vector_extent(self.y_count(), self.incy as int),
        }
    }

    /// Whether the shape stays within buffers of the given lengths.
    pub open spec fn in_bounds(self, a_len: int, x_len: int, y_len: int) -> bool {
        &&& self.extent(Operand::A) <= a_len
        &&& self.extent(Operand::B) <= x_len
        &&& self.extent(Operand::C) <= y_len
    }

    /// The first operand, in the order `A`, `x`, `y`, that the shape
    /// overruns; none where it stays within all three.
    pub open spec fn first_overrun(self, a_len: int, x_len: int, y_len: int) -> Result<
        (),
        Operand,
    > {
        verdict(
            self.extent(Operand::A) <= a_len,
            self.extent(Operand::B) <= x_len,
            self.extent(Operand::C) <= y_len,
        )
    }

    /// Checks the shape against buffers of the given lengths and names the
    /// first operand that it overruns.
    pub fn check(&self, a_len: usize, x_len: usize, y_len: usize) -> (checked: Result<
        (),
        Operand,
    >)
        ensures
            checked == self.first_overrun(a_len as int, x_len as int, y_len as int),
            checked is Ok <==> self.in_bounds(a_len as int, x_len as int, y_len as int),
    {
        let identity = self.trans.is_identity();
        let x_count = if identity {
            self.n
        } else {
            self.m
        };
        let y_count = if identity {
            self.m
        } else {
            self.n
        };
        if !span_fits(matrix_span(self.m, self.n, self.lda), a_len) {
            Err(Operand::A)
        } else if !span_fits(vector_span(x_count, self.incx), x_len) {
            Err(Operand::B)
        } else if !span_fits(vector_span(y_count, self.incy), y_len) {
            Err(Operand::C)
        } else {
            Ok(())
        }
    }
}

impl<T> GemmConfig<T> {
    /// The number of rows of the given operand as it is stored.
    pub open spec fn rows(self, operand: Operand) -> int {
        match operand {
            Operand::A => if self.transa.is_identity_spec() {
                self.m as int
            } else {
                self.k as int
            },
            Operand::B => if self.transb.is_identity_spec() {
                self.k as int
            } else {
                self.n as int
            },
            Operand::C => self.m as int,
        }
    }

    /// The number of columns of the given operand as it is stored.
    pub open spec fn cols(self, operand: Operand) -> int {
        match operand {
            Operand::A => if self.transa.is_identity_spec() {
                self.k as int
            } else {
                self.m as int
            },
            Operand::B => if self.transb.is_identity_spec() {
                self.n as int
            } else {
                self.k as int
            },
            Operand::C => self.n as int,
        }
    }

    /// The leading dimension of the given operand.
    pub open spec fn ld(self, operand: Operand) -> int {
        match operand {
            Operand::A => self.lda as int,
            Operand::B => self.ldb as int,
            Operand::C => self.ldc as int,
        }
    }

    /// The number of elements that the shape reaches in the given operand.
    pub open spec fn extent(self, operand: Operand) -> int {
        matrix_extent(self.rows(operand), self.cols(operand), self.ld(operand))
    }

    /// Whether the shape stays within buffers of the given lengths.
    pub open spec fn in_bounds(self, a_len: int, b_len: int, c_len: int) -> bool {
        &&& self.extent(Operand::A) <= a_len
        &&& self.extent(Operand::B) <= b_len
        &&& self.extent(Operand::C) <= c_len
    }

    /// Computes the extent of the given operand.
    pub fn span(&self, operand: Operand) -> (span: i64)
        ensures
            span == self.extent(operand),
    {
        match operand {
            Operand::A => if self.transa.is_identity() {
                matrix_span(self.m, self.k, self.lda)
            } else {
                matrix_span(self.k, self.m, self.lda)
            },
            Operand::B => if self.transb.is_identity() {
                matrix_span(self.k, self.n, self.ldb)
            } else {
                matrix_span(self.n, self.k, self.ldb)
            },
            Operand::C => matrix_span(self.m, self.n, self.ldc),
        }
    }

    /// The first operand, in the order `A`, `B`, `C`, that the shape
    /// overruns; none where it stays within all three.
    pub open spec fn first_overrun(self, a_len: int, b_len: int, c_len: int) -> Result<
        (),
        Operand,
    > {
        verdict(
            self.extent(Operand::A) <= a_len,
            self.extent(Operand::B) <= b_len,
            self.extent(Operand::C) <= c_len,
        )
    }

    /// Checks the shape against buffers of the given lengths and names the
    /// first operand that it overruns.
    pub fn check(&self, a_len: usize, b_len: usize, c_len: usize) -> (checked: Result<
        (),
        Operand,
    >)
        ensures
            checked == self.first_overrun(a_len as int, b_len as int, c_len as int),
            checked is Ok <==> self.in_bounds(a_len as int, b_len as int, c_len as int),
    {
        if !span_fits(self.span(Operand::A), a_len) {
            Err(Operand::A)
        } else if !span_fits(self.span(Operand::B), b_len) {
            Err(Operand::B)
        } else if !span_fits(self.span(Operand::C), c_len) {
            Err(Operand::C)
        } else {
            Ok(())
        }
    }
}

impl<T> StridedBatchedConfig<T> {
    /// The distance, in elements, between two repetitions of the given
    /// operand.
    pub open spec fn stride(self, operand: Operand) -> int {
        match operand {
            Operand::A => self.stride_a as int,
            Operand::B => self.stride_b as int,
            Operand::C => self.stride_c as int,
        }
    }

    /// Where, in elements from the start of the buffer, the repetition
    /// `index` finds the given operand.
    pub open spec fn offset(self, operand: Operand, index: int) -> int {
        self.stride(operand) * index
    }

    /// Whether all repetitions of the given operand lie within `len`
    /// elements.
    pub open spec fn fits(self, operand: Operand, len: int) -> bool {
        batch_fits(len, self.gemm.extent(operand), self.stride(operand), self.batch_size as int)
    }

    /// Whether the batch stays within buffers of the given lengths.
    pub open spec fn in_bounds(self, a_len: int, b_len: int, c_len: int) -> bool {
        &&& self.fits(Operand::A, a_len)
        &&& self.fits(Operand::B, b_len)
        &&& self.fits(Operand::C, c_len)
    }

    /// The first operand, in the order `A`, `B`, `C`, that the batch
    /// overruns; none where it stays within all three.
    pub open spec fn first_overrun(self, a_len: int, b_len: int, c_len: int) -> Result<
        (),
        Operand,
    > {
        verdict(self.fits(Operand::A, a_len), self.fits(Operand::B, b_len), self.fits(
            Operand::C,
            c_len,
        ))
    }

    /// Checks the batch against buffers of the given lengths and names the
    /// first operand that it overruns.
    pub fn check(&self, a_len: usize, b_len: usize, c_len: usize) -> (checked: Result<
        (),
        Operand,
    >)
        ensures
            checked == self.first_overrun(a_len as int, b_len as int, c_len as int),
            checked is Ok <==> self.in_bounds(a_len as int, b_len as int, c_len as int),
    {
        let batch = self.batch_size;
        if !batch_span_fits(a_len, self.gemm.span(Operand::A), self.stride_a, batch) {
            Err(Operand::A)
        } else if !batch_span_fits(b_len, self.gemm.span(Operand::B), self.stride_b, batch) {
            Err(Operand::B)
        } else if !batch_span_fits(c_len, self.gemm.span(Operand::C), self.stride_c, batch) {
            Err(Operand::C)
        } else {
            Ok(())
        }
    }
}

/// Why a multiplication was not dispatched.
#[derive(Debug, Copy, Clone, PartialEq, Eq, Hash, Structural)]
pub enum DispatchError {
    /// The context has been torn down.
    Released,
    /// The context expects its coefficients in device memory, and a dispatch
    /// passes them from the host.
    DeviceScalars,
    /// The shape reaches past the end of the named operand.
    Overrun(Operand),
}

/// What a compute context is, to its contracts.
pub struct BlasState {
    /// The handle that the context owns; null once it is torn down.
    pub handle: cublasHandle_t,
    /// The stream that the handle is bound to.
    pub stream: CudaStream,
    /// Where the handle reads coefficients from.
    pub pointer_mode: cublasPointerMode_t,
}

impl BlasState {
    /// Whether the context still owns a handle.
    pub open spec fn is_live(self) -> bool {
        !self.handle.is_null_spec()
    }

    /// Whether a multiplication may be dispatched: the context owns a handle,
    /// and the handle reads coefficients from the host.
    pub open spec fn admits_dispatch(self) -> bool {
        self.is_live() && self.pointer_mode == cublasPointerMode_t::CUBLAS_POINTER_MODE_HOST
    }

    /// Why a multiplication is refused, if it is, given what the check of its
    /// shape found: a released context first, then the pointer mode, then the
    /// shape.
    pub open spec fn admission(self, bounds: Result<(), Operand>) -> Result<(), DispatchError> {
        if !self.is_live() {
            Err(DispatchError::Released)
        } else if self.pointer_mode != cublasPointerMode_t::CUBLAS_POINTER_MODE_HOST {
            Err(DispatchError::DeviceScalars)
        } else {
            match bounds {
                Err(operand) => Err(DispatchError::Overrun(operand)),
                Ok(_) => Ok(()),
            }
        }
    }

    /// The dispatch of `primitive` on buffers `a`, `b` and `c`: the context's
    /// handle, and each buffer tied to the context's stream, the factors for
    /// reading and the output for writing.
    pub open spec fn dispatch<T>(
        self,
        primitive: Primitive,
        a: DeviceSlice<T>,
        b: DeviceSlice<T>,
        c: DeviceSlice<T>,
    ) -> Dispatch {
        Dispatch {
            handle: self.handle,
            a: a.captured(self.stream, Access::Read),
            b: b.captured(self.stream, Access::Read),
            c: c.captured(self.stream, Access::Write),
            primitive,
        }
    }

    /// The context after a change of pointer mode that returned `status`: the
    /// new mode if the library accepted it, the context as it was otherwise.
    pub open spec fn after_pointer_mode(
        self,
        mode: cublasPointerMode_t,
        status: cublasStatus_t,
    ) -> BlasState {
        if status.is_success_spec() {
            BlasState { pointer_mode: mode, ..self }
        } else {
            self
        }
    }

    /// The context bound to another stream.
    pub open spec fn rebound(self, stream: CudaStream) -> BlasState {
        BlasState { stream, ..self }
    }

    /// The context after teardown: without a handle, and otherwise as it was.
    pub open spec fn torn_down(self) -> BlasState {
        BlasState { handle: cublasHandle_t { address: 0 }, ..self }
    }

    /// What teardown asks of the vendor library: the release of the handle
    /// if the context owns one, nothing otherwise.
    pub open spec fn release(self) -> Option<Request> {
        if self.is_live() {
            Some(Request::Destroy { handle: self.handle })
        } else {
            None
        }
    }
}

/// The owner of one handle of the vendor library, bound to one execution
/// stream.
///
/// A context is made by [`CudaBlas::new`] and the [`Construction`] that it
/// starts. It keeps its stream alive by sharing it. It owns its handle until
/// [`CudaBlas::teardown`], which asks for the release of the handle once and
/// leaves the null handle behind.
#[derive(Debug)]
pub struct CudaBlas {
    handle: cublasHandle_t,
    stream: Arc<CudaStream>,
    pointer_mode: cublasPointerMode_t,
}

impl View for CudaBlas {
    type V = BlasState;

    closed spec fn view(&self) -> BlasState {
        BlasState { handle: self.handle, stream: *self.stream, pointer_mode: self.pointer_mode }
    }
}

/// Matrix-vector multiplication with elements of type `T`.
pub trait Gemv<T: GemvElement>: View<V = BlasState> {
    /// Dispatches `y = alpha * op(a) * x + beta * y`: to the context's
    /// handle, with the three buffers tied to the context's stream, by the
    /// primitive of the representation `T`. The stream becomes the one that
    /// `y` was last written on.
    ///
    /// The vendor library trusts the shape. The caller shows that the shape
    /// stays within the three buffers, that the context still owns its
    /// handle, and that the handle reads coefficients from the host.
    fn gemv(
        &self,
        cfg: GemvConfig<T>,
        a: &DeviceSlice<T>,
        x: &DeviceSlice<T>,
        y: &mut DeviceSlice<T>,
    ) -> (dispatch: Dispatch)
        requires
            self@.admits_dispatch(),
            cfg.in_bounds(a.len() as int, x.len() as int, old(y).len() as int),
        ensures
            dispatch == self@.dispatch(T::gemv_primitive(cfg), *a, *x, *old(y)),
            final(y).is_written(*old(y), self@.stream),
    ;
}

/// Matrix-matrix multiplication with elements of type `T`.
pub trait Gemm<T: GemmElement>: View<V = BlasState> {
    /// Dispatches `c = alpha * op(a) * op(b) + beta * c`: to the context's
    /// handle, with the three buffers tied to the context's stream, by the
    /// primitive of the representation `T`. The stream becomes the one that
    /// `c` was last written on.
    ///
    /// The vendor library trusts the shape. The caller shows that the shape
    /// stays within the three buffers, that the context still owns its
    /// handle, and that the handle reads coefficients from the host.
    fn gemm(
        &self,
        cfg: GemmConfig<T>,
        a: &DeviceSlice<T>,
        b: &DeviceSlice<T>,
        c: &mut DeviceSlice<T>,
    ) -> (dispatch: Dispatch)
        requires
            self@.admits_dispatch(),
            cfg.in_bounds(a.len() as int, b.len() as int, old(c).len() as int),
        ensures
            dispatch == self@.dispatch(T::gemm_primitive(cfg), *a, *b, *old(c)),
            final(c).is_written(*old(c), self@.stream),
    ;

    /// Dispatches `batch_size` matrix products, each on operands one stride
    /// after those of the one before. The vendor library decides in what
    /// order the repetitions run.
    ///
    /// The caller shows of the whole batch what [`Gemm::gemm`] asks of one
    /// product.
    fn gemm_strided_batched(
        &self,
        cfg: StridedBatchedConfig<T>,
        a: &DeviceSlice<T>,
        b: &DeviceSlice<T>,
        c: &mut DeviceSlice<T>,
    ) -> (dispatch: Dispatch)
        requires
            self@.admits_dispatch(),
            cfg.in_bounds(a.len() as int, b.len() as int, old(c).len() as int),
        ensures
            dispatch == self@.dispatch(T::gemm_strided_batched_primitive(cfg), *a, *b, *old(c)),
            final(c).is_written(*old(c), self@.stream),
    ;
}

impl CudaBlas {
    /// Ties the three operands to the context's stream and puts the dispatch
    /// together.
    fn dispatch<T>(
        &self,
        primitive: Primitive,
        a: &DeviceSlice<T>,
        b: &DeviceSlice<T>,
        c: &mut DeviceSlice<T>,
    ) -> (dispatch: Dispatch)
        ensures
            dispatch == self@.dispatch(primitive, *a, *b, *old(c)),
            final(c).is_written(*old(c), self@.stream),
    {
        let a = a.device_ptr(&self.stream);
        let b = b.device_ptr(&self.stream);
        let c = c.device_ptr_mut(&self.stream);
        Dispatch { handle: self.handle, a, b, c, primitive }
    }
}

impl<T: GemvElement> Gemv<T> for CudaBlas {
    fn gemv(
        &self,
        cfg: GemvConfig<T>,
        a: &DeviceSlice<T>,
        x: &DeviceSlice<T>,
        y: &mut DeviceSlice<T>,
    ) -> (dispatch: Dispatch) {
        self.dispatch(T::marshal_gemv(cfg), a, x, y)
    }
}

impl<T: GemmElement> Gemm<T> for CudaBlas {
    fn gemm(
        &self,
        cfg: GemmConfig<T>,
        a: &DeviceSlice<T>,
        b: &DeviceSlice<T>,
        c: &mut DeviceSlice<T>,
    ) -> (dispatch: Dispatch) {
        self.dispatch(T::marshal_gemm(cfg), a, b, c)
    }

    fn gemm_strided_batched(
        &self,
        cfg: StridedBatchedConfig<T>,
        a: &DeviceSlice<T>,
        b: &DeviceSlice<T>,
        c: &mut DeviceSlice<T>,
    ) -> (dispatch: Dispatch) {
        self.dispatch(T::marshal_gemm_strided_batched(cfg), a, b, c)
    }
}

impl CudaBlas {
    /// Dispatches a matrix product on operands stored as `E`, with binary32
    /// coefficients, through the library's mixed-precision entry point.
    ///
    /// This is the product of every sixteen-bit representation once its
    /// coefficients are widened. The caller shows what [`Gemm::gemm`] asks.
    pub fn gemm_ex<E: Element>(
        &self,
        cfg: GemmConfig<Binary32>,
        a: &DeviceSlice<E>,
        b: &DeviceSlice<E>,
        c: &mut DeviceSlice<E>,
    ) -> (dispatch: Dispatch)
        requires
            self@.admits_dispatch(),
            cfg.in_bounds(a.len() as int, b.len() as int, old(c).len() as int),
        ensures
            dispatch == self@.dispatch(
                gemm_ex_primitive(E::data_type_spec(), cfg),
                *a,
                *b,
                *old(c),
            ),
            final(c).is_written(*old(c), self@.stream),
    {
        self.dispatch(marshal_gemm_ex(E::data_type(), cfg), a, b, c)
    }

    /// Dispatches a batch of matrix products on operands stored as `E`, with
    /// binary32 coefficients, through the library's mixed-precision entry
    /// point. The caller shows what [`Gemm::gemm_strided_batched`] asks.
    pub fn gemm_strided_batched_ex<E: Element>(
        &self,
        cfg: StridedBatchedConfig<Binary32>,
        a: &DeviceSlice<E>,
        b: &DeviceSlice<E>,
        c: &mut DeviceSlice<E>,
    ) -> (dispatch: Dispatch)
        requires
            self@.admits_dispatch(),
            cfg.in_bounds(a.len() as int, b.len() as int, old(c).len() as int),
        ensures
            dispatch == self@.dispatch(
                gemm_strided_batched_ex_primitive(E::data_type_spec(), cfg),
                *a,
                *b,
                *old(c),
            ),
            final(c).is_written(*old(c), self@.stream),
    {
        self.dispatch(marshal_gemm_strided_batched_ex(E::data_type(), cfg), a, b, c)
    }

    /// Says whether the context is in a state to dispatch a multiplication
    /// whose shape was checked with the result `bounds`, and if not, why.
    pub fn screen(&self, bounds: Result<(), Operand>) -> (screened: Result<(), DispatchError>)
        ensures
            screened == self@.admission(bounds),
            screened is Ok <==> self@.admits_dispatch() && bounds is Ok,
    {
        if self.handle.is_null() {
            Err(DispatchError::Released)
        } else {
            match self.pointer_mode {
                cublasPointerMode_t::CUBLAS_POINTER_MODE_DEVICE => Err(
                    DispatchError::DeviceScalars,
                ),
                cublasPointerMode_t::CUBLAS_POINTER_MODE_HOST => match bounds {
                    Err(operand) => Err(DispatchError::Overrun(operand)),
                    Ok(_) => Ok(()),
                },
            }
        }
    }

    /// [`Gemv::gemv`] for callers that cannot show what it asks: checks the
    /// context and the shape, and dispatches only where both are in order.
    pub fn try_gemv<T: GemvElement>(
        &self,
        cfg: GemvConfig<T>,
        a: &DeviceSlice<T>,
        x: &DeviceSlice<T>,
        y: &mut DeviceSlice<T>,
    ) -> (tried: Result<Dispatch, DispatchError>)
        ensures
            match tried {
                Ok(dispatch) => {
                    &&& final(y).is_written(*old(y), self@.stream)
                    &&& self@.admits_dispatch()
                    &&& cfg.in_bounds(a.len() as int, x.len() as int, old(y).len() as int)
                    &&& dispatch == self@.dispatch(T::gemv_primitive(cfg), *a, *x, *old(y))
                },
                Err(error) => {
                    &&& *final(y) == *old(y)
                    &&& Err::<(), DispatchError>(error) == self@.admission(
                        cfg.first_overrun(a.len() as int, x.len() as int, old(y).len() as int),
                    )
                },
            },
    {
        match self.screen(cfg.check(a.len(), x.len(), y.len())) {
            Err(error) => Err(error),
            Ok(_) => Ok(self.gemv(cfg, a, x, y)),
        }
    }

    /// [`Gemm::gemm`] for callers that cannot show what it asks: checks the
    /// context and the shape, and dispatches only where both are in order.
    pub fn try_gemm<T: GemmElement>(
        &self,
        cfg: GemmConfig<T>,
        a: &DeviceSlice<T>,
        b: &DeviceSlice<T>,
        c: &mut DeviceSlice<T>,
    ) -> (tried: Result<Dispatch, DispatchError>)
        ensures
            match tried {
                Ok(dispatch) => {
                    &&& final(c).is_written(*old(c), self@.stream)
                    &&& self@.admits_dispatch()
                    &&& cfg.in_bounds(a.len() as int, b.len() as int, old(c).len() as int)
                    &&& dispatch == self@.dispatch(T::gemm_primitive(cfg), *a, *b, *old(c))
                },
                Err(error) => {
                    &&& *final(c) == *old(c)
                    &&& Err::<(), DispatchError>(error) == self@.admission(
                        cfg.first_overrun(a.len() as int, b.len() as int, old(c).len() as int),
                    )
                },
            },
    {
        match self.screen(cfg.check(a.len(), b.len(), c.len())) {
            Err(error) => Err(error),
            Ok(_) => Ok(self.gemm(cfg, a, b, c)),
        }
    }

    /// [`Gemm::gemm_strided_batched`] for callers that cannot show what it
    /// asks: checks the context and the batch, and dispatches only where
    /// both are in order.
    pub fn try_gemm_strided_batched<T: GemmElement>(
        &self,
        cfg: StridedBatchedConfig<T>,
        a: &DeviceSlice<T>,
        b: &DeviceSlice<T>,
        c: &mut DeviceSlice<T>,
    ) -> (tried: Result<Dispatch, DispatchError>)
        ensures
            match tried {
                Ok(dispatch) => {
                    &&& final(c).is_written(*old(c), self@.stream)
                    &&& self@.admits_dispatch()
                    &&& cfg.in_bounds(a.len() as int, b.len() as int, old(c).len() as int)
                    &&& dispatch == self@.dispatch(
                        T::gemm_strided_batched_primitive(cfg),
                        *a,
                        *b,
                        *old(c),
                    )
                },
                Err(error) => {
                    &&& *final(c) == *old(c)
                    &&& Err::<(), DispatchError>(error) == self@.admission(
                        cfg.first_overrun(a.len() as int, b.len() as int, old(c).len() as int),
                    )
                },
            },
    {
        match self.screen(cfg.check(a.len(), b.len(), c.len())) {
            Err(error) => Err(error),
            Ok(_) => Ok(self.gemm_strided_batched(cfg, a, b, c)),
        }
    }

    /// [`CudaBlas::gemm_ex`] for callers that cannot show what it asks.
    pub fn try_gemm_ex<E: Element>(
        &self,
        cfg: GemmConfig<Binary32>,
        a: &DeviceSlice<E>,
        b: &DeviceSlice<E>,
        c: &mut DeviceSlice<E>,
    ) -> (tried: Result<Dispatch, DispatchError>)
        ensures
            match tried {
                Ok(dispatch) => {
                    &&& final(c).is_written(*old(c), self@.stream)
                    &&& self@.admits_dispatch()
                    &&& cfg.in_bounds(a.len() as int, b.len() as int, old(c).len() as int)
                    &&& dispatch == self@.dispatch(
                        gemm_ex_primitive(E::data_type_spec(), cfg),
                        *a,
                        *b,
                        *old(c),
                    )
                },
                Err(error) => {
                    &&& *final(c) == *old(c)
                    &&& Err::<(), DispatchError>(error) == self@.admission(
                        cfg.first_overrun(a.len() as int, b.len() as int, old(c).len() as int),
                    )
                },
            },
    {
        match self.screen(cfg.check(a.len(), b.len(), c.len())) {
            Err(error) => Err(error),
            Ok(_) => Ok(self.gemm_ex(cfg, a, b, c)),
        }
    }

    /// [`CudaBlas::gemm_strided_batched_ex`] for callers that cannot show
    /// what it asks.
    pub fn try_gemm_strided_batched_ex<E: Element>(
        &self,
        cfg: StridedBatchedConfig<Binary32>,
        a: &DeviceSlice<E>,
        b: &DeviceSlice<E>,
        c: &mut DeviceSlice<E>,
    ) -> (tried: Result<Dispatch, DispatchError>)
        ensures
            match tried {
                Ok(dispatch) => {
                    &&& final(c).is_written(*old(c), self@.stream)
                    &&& self@.admits_dispatch()
                    &&& cfg.in_bounds(a.len() as int, b.len() as int, old(c).len() as int)
                    &&& dispatch == self@.dispatch(
                        gemm_strided_batched_ex_primitive(E::data_type_spec(), cfg),
                        *a,
                        *b,
                        *old(c),
                    )
                },
                Err(error) => {
                    &&& *final(c) == *old(c)
                    &&& Err::<(), DispatchError>(error) == self@.admission(
                        cfg.first_overrun(a.len() as int, b.len() as int, old(c).len() as int),
                    )
                },
            },
    {
        match self.screen(cfg.check(a.len(), b.len(), c.len())) {
            Err(error) => Err(error),
            Ok(_) => Ok(self.gemm_strided_batched_ex(cfg, a, b, c)),
        }
    }
}

impl CudaBlas {
    /// The context that owns `handle`, bound to `stream`, as the vendor
    /// library hands it out: reading its coefficients from the host.
    pub(crate) fn fresh(handle: cublasHandle_t, stream: Arc<CudaStream>) -> (blas: CudaBlas)
        ensures
            blas@ == (BlasState {
                handle,
                stream: *stream,
                pointer_mode: cublasPointerMode_t::CUBLAS_POINTER_MODE_HOST,
            }),
    {
        CudaBlas { handle, stream, pointer_mode: cublasPointerMode_t::CUBLAS_POINTER_MODE_HOST }
    }

    /// Starts the making of a context whose handle is bound to `stream`.
    ///
    /// The context shares the stream, and so keeps it, and the accelerator
    /// context that owns it, alive.
    pub fn new(stream: Arc<CudaStream>) -> (construction: Construction)
        ensures
            construction@ == (ConstructionState::Allocating { stream: *stream }),
    {
        Construction::Allocating { stream }
    }

    /// The handle that the context owns; the null handle after teardown.
    pub fn handle(&self) -> (handle: &cublasHandle_t)
        ensures
            *handle == self@.handle,
    {
        &self.handle
    }

    /// The stream that the handle is bound to.
    pub fn stream(&self) -> (stream: &Arc<CudaStream>)
        ensures
            **stream == self@.stream,
    {
        &self.stream
    }

    /// Where the handle reads coefficients from, as far as this context has
    /// set it or been told.
    pub fn pointer_mode(&self) -> (mode: cublasPointerMode_t)
        ensures
            mode == self@.pointer_mode,
    {
        self.pointer_mode
    }

    /// Whether the context still owns a handle.
    pub fn is_live(&self) -> (live: bool)
        ensures
            live == self@.is_live(),
    {
        !self.handle.is_null()
    }

    /// Binds the context to another stream and returns the request that
    /// makes it the handle's active stream. The context shares the new
    /// stream from now on, whatever the library answers. The status of the
    /// request goes to [`CudaBlas::stream_set`].
    ///
    /// Work that was dispatched on the old stream is not ordered before work
    /// on the new one. A capture makes the new stream wait for what wrote a
    /// buffer, not for what still reads it: a multiplication that writes, on
    /// the new stream, memory that one on the old stream still reads races
    /// with it unless the caller synchronizes the two.
    pub fn set_stream(&mut self, stream: Arc<CudaStream>) -> (request: Request)
        requires
            old(self)@.is_live(),
        ensures
            final(self)@ == old(self)@.rebound(*stream),
            request == (Request::SetStream {
                handle: old(self)@.handle,
                stream: stream.cu_stream,
            }),
    {
        self.stream = stream;
        Request::SetStream { handle: self.handle, stream: self.stream.cu_stream }
    }

    /// Takes the status of a request to bind the handle to a stream: success
    /// if the library accepted the binding, and a configuration failure with
    /// the status that it returned if not. The context is left as
    /// [`CudaBlas::set_stream`] left it, bound to the new stream and with the
    /// handle it had.
    pub fn stream_set(&self, status: cublasStatus_t) -> (result: Result<(), CublasError>)
        ensures
            result == outcome(Stage::Configuration, status),
    {
        status.result(Stage::Configuration)
    }

    /// The request that sets where the handle reads coefficients from. Its
    /// status goes to [`CudaBlas::pointer_mode_set`].
    pub fn set_pointer_mode(&self, mode: cublasPointerMode_t) -> (request: Request)
        requires
            self@.is_live(),
        ensures
            request == (Request::SetPointerMode { handle: self@.handle, mode }),
    {
        Request::SetPointerMode { handle: self.handle, mode }
    }

    /// Takes the status of a request to set the pointer mode to `mode`. The
    /// context is in that mode if the library accepted it, and is as it was
    /// if not.
    pub fn pointer_mode_set(&mut self, mode: cublasPointerMode_t, status: cublasStatus_t) -> (result:
        Result<(), CublasError>)
        ensures
            final(self)@ == old(self)@.after_pointer_mode(mode, status),
            result == outcome(Stage::Configuration, status),
    {
        if status.is_success() {
            self.pointer_mode = mode;
        }
        status.result(Stage::Configuration)
    }

    /// The request that asks where the handle reads coefficients from. Its
    /// reply goes to [`CudaBlas::pointer_mode_reported`].
    pub fn get_pointer_mode(&self) -> (request: Request)
        requires
            self@.is_live(),
        ensures
            request == (Request::GetPointerMode { handle: self@.handle }),
    {
        Request::GetPointerMode { handle: self.handle }
    }

    /// Takes the reply to a request for the pointer mode: the mode that the
    /// library reported if the status is success, a configuration failure if
    /// not. The context goes by what the library reported.
    pub fn pointer_mode_reported(
        &mut self,
        status: cublasStatus_t,
        mode: cublasPointerMode_t,
    ) -> (result: Result<cublasPointerMode_t, CublasError>)
        ensures
            final(self)@ == old(self)@.after_pointer_mode(mode, status),
            result == if status.is_success_spec() {
                Ok::<cublasPointerMode_t, CublasError>(mode)
            } else {
                Err(CublasError::Configuration(status))
            },
    {
        if status.is_success() {
            self.pointer_mode = mode;
            Ok(mode)
        } else {
            Err(CublasError::Configuration(status))
        }
    }

    /// Gives up the handle: returns the request that releases it, and leaves
    /// the null handle in its place. A context that has no handle any more
    /// asks for nothing, so the handle is released once however often this is
    /// called. The status of the release goes to
    /// [`cublasStatus_t::release_result`].
    pub fn teardown(&mut self) -> (request: Option<Request>)
        ensures
            request == old(self)@.release(),
            final(self)@ == old(self)@.torn_down(),
    {
        let handle = self.handle;
        self.handle = cublasHandle_t::null();
        if handle.is_null() {
            None
        } else {
            Some(Request::Destroy { handle })
        }
    }
}

} // verus!
