//! The context and the dispatch, carried out against a stand-in for the
//! accelerator that keeps device memory on the host and multiplies there.


use cudarc::cublas::result::{CublasError, Fatal};
use cudarc::cublas::safe::{
    Construction, CudaBlas, Dispatch, DispatchError, Gemm, GemmConfig, Gemv, GemvConfig,
    Primitive, Reply, Request, Step, StridedBatchedConfig,
};
use cudarc::cublas::shape::Operand;
use cudarc::cublas::sys::{
    cublasComputeType_t, cublasGemmAlgo_t, cublasHandle_t, cublasOperation_t,
    cublasPointerMode_t, cublasStatus_t, cudaDataType_t,
};
use cudarc::driver::{Access, Capture, CudaStream, DeviceSlice};
use cudarc::scalar::{BFloat16, Binary16, Binary32, Binary64};
use std::collections::HashMap;
use std::sync::Arc;

/// What the stand-in knows of one handle.
struct HandleState {
    stream: usize,
    pointer_mode: cublasPointerMode_t,
}

/// A stand-in for the accelerator and the vendor library.
struct Device {
    context: usize,
    next_address: u64,
    memory: HashMap<u64, Vec<f64>>,
    next_handle: usize,
    handles: HashMap<usize, HandleState>,
    destroyed: Vec<usize>,
    bound_thread: Option<usize>,
    tied: Vec<Capture>,
    waits: Vec<(usize, usize)>,
    enqueued: Vec<(usize, Primitive)>,
    fail_create: Option<cublasStatus_t>,
    fail_set_stream: Option<cublasStatus_t>,
    fail_destroy: Option<cublasStatus_t>,
}

fn round32(x: f64) -> f64 {
    (x as f32) as f64
}

fn exact(x: f64) -> f64 {
    x
}

fn store_as(data_type: cudaDataType_t, x: f64) -> f64 {
    match data_type {
        cudaDataType_t::CUDA_R_32F => (x as f32) as f64,
        cudaDataType_t::CUDA_R_64F => x,
        cudaDataType_t::CUDA_R_16F => half::f16::from_f64(x).to_f64(),
        cudaDataType_t::CUDA_R_16BF => half::bf16::from_f64(x).to_f64(),
    }
}

fn single(x: f32) -> Binary32 {
    Binary32::from_bits(x.to_bits())
}

fn double(x: f64) -> Binary64 {
    Binary64::from_bits(x.to_bits())
}

fn from_single(x: Binary32) -> f64 {
    f32::from_bits(x.to_bits()) as f64
}

fn from_double(x: Binary64) -> f64 {
    f64::from_bits(x.to_bits())
}

impl Device {
    fn new(context: usize) -> Device {
        Device {
            context,
            next_address: 0x1000,
            memory: HashMap::new(),
            next_handle: 0x7000,
            handles: HashMap::new(),
            destroyed: Vec::new(),
            bound_thread: None,
            tied: Vec::new(),
            waits: Vec::new(),
            enqueued: Vec::new(),
            fail_create: None,
            fail_set_stream: None,
            fail_destroy: None,
        }
    }

    fn default_stream(&self) -> Arc<CudaStream> {
        Arc::new(CudaStream::new(self.context, 0))
    }

    fn new_stream(&self, cu_stream: usize) -> Arc<CudaStream> {
        Arc::new(CudaStream::new(self.context, cu_stream))
    }

    fn upload<T>(&mut self, values: Vec<f64>) -> DeviceSlice<T> {
        let address = self.next_address;
        self.next_address += 0x1000 + 8 * values.len() as u64;
        let len = values.len();
        self.memory.insert(address, values);
        DeviceSlice::new(address, len)
    }

    fn memcpy_stod(&mut self, values: &[f32]) -> DeviceSlice<Binary32> {
        self.upload(values.iter().map(|v| *v as f64).collect())
    }

    fn memcpy_stod_f64(&mut self, values: &[f64]) -> DeviceSlice<Binary64> {
        self.upload(values.to_vec())
    }

    fn memcpy_stod_f16(&mut self, values: &[half::f16]) -> DeviceSlice<Binary16> {
        self.upload(values.iter().map(|v| v.to_f64()).collect())
    }

    fn memcpy_stod_bf16(&mut self, values: &[half::bf16]) -> DeviceSlice<BFloat16> {
        self.upload(values.iter().map(|v| v.to_f64()).collect())
    }

    fn alloc_zeros<T>(&mut self, len: usize) -> DeviceSlice<T> {
        self.upload(vec![0.0; len])
    }

    fn download<T>(&self, slice: &DeviceSlice<T>) -> Vec<f64> {
        self.memory[&slice.address()].clone()
    }

    fn memcpy_dtov(&self, slice: &DeviceSlice<Binary32>) -> Vec<f32> {
        self.download(slice).iter().map(|v| *v as f32).collect()
    }

    fn memcpy_dtov_f64(&self, slice: &DeviceSlice<Binary64>) -> Vec<f64> {
        self.download(slice)
    }

    fn memcpy_dtov_f16(&self, slice: &DeviceSlice<Binary16>) -> Vec<half::f16> {
        self.download(slice).iter().map(|v| half::f16::from_f64(*v)).collect()
    }

    fn memcpy_dtov_bf16(&self, slice: &DeviceSlice<BFloat16>) -> Vec<half::bf16> {
        self.download(slice).iter().map(|v| half::bf16::from_f64(*v)).collect()
    }

    /// Carries out one request on the handle itself.
    fn perform(&mut self, request: Request) -> Reply {
        match request {
            Request::Create { context } => {
                self.bound_thread = Some(context);
                if let Some(status) = self.fail_create {
                    return Reply::Created { status, handle: cublasHandle_t::null() };
                }
                let address = self.next_handle;
                self.next_handle += 0x100;
                self.handles.insert(
                    address,
                    HandleState {
                        stream: 0,
                        pointer_mode: cublasPointerMode_t::CUBLAS_POINTER_MODE_HOST,
                    },
                );
                Reply::Created {
                    status: cublasStatus_t::CUBLAS_STATUS_SUCCESS,
                    handle: cublasHandle_t { address },
                }
            }
            Request::SetStream { handle, stream } => {
                if let Some(status) = self.fail_set_stream {
                    return Reply::Completed { status };
                }
                match self.handles.get_mut(&handle.address) {
                    Some(state) => {
                        state.stream = stream;
                        Reply::Completed { status: cublasStatus_t::CUBLAS_STATUS_SUCCESS }
                    }
                    None => Reply::Completed {
                        status: cublasStatus_t::CUBLAS_STATUS_NOT_INITIALIZED,
                    },
                }
            }
            Request::Destroy { handle } => {
                self.destroyed.push(handle.address);
                if let Some(status) = self.fail_destroy {
                    return Reply::Completed { status };
                }
                match self.handles.remove(&handle.address) {
                    Some(_) => Reply::Completed { status: cublasStatus_t::CUBLAS_STATUS_SUCCESS },
                    None => Reply::Completed {
                        status: cublasStatus_t::CUBLAS_STATUS_NOT_INITIALIZED,
                    },
                }
            }
            Request::SetPointerMode { .. } | Request::GetPointerMode { .. } => {
                panic!("not a request of a construction")
            }
        }
    }

    /// Runs a construction to its end, as a caller of the library does.
    fn create(&mut self, mut construction: Construction) -> Result<CudaBlas, CublasError> {
        loop {
            match construction.request() {
                Some(request) => {
                    let reply = self.perform(request);
                    construction = construction.step(reply);
                }
                None => {
                    return match construction {
                        Construction::Ready { blas } => Ok(blas),
                        Construction::Failed { error } => Err(error),
                        Construction::Aborted { fatal } => {
                            panic!("the release of the handle failed: {:?}", fatal)
                        }
                        _ => unreachable!(),
                    };
                }
            }
        }
    }

    fn set_pointer_mode(
        &mut self,
        blas: &mut CudaBlas,
        mode: cublasPointerMode_t,
    ) -> Result<(), CublasError> {
        let status = match blas.set_pointer_mode(mode) {
            Request::SetPointerMode { handle, mode } => {
                match self.handles.get_mut(&handle.address) {
                    Some(state) => {
                        state.pointer_mode = mode;
                        cublasStatus_t::CUBLAS_STATUS_SUCCESS
                    }
                    None => cublasStatus_t::CUBLAS_STATUS_NOT_INITIALIZED,
                }
            }
            other => panic!("unexpected request {:?}", other),
        };
        blas.pointer_mode_set(mode, status)
    }

    fn get_pointer_mode(
        &mut self,
        blas: &mut CudaBlas,
    ) -> Result<cublasPointerMode_t, CublasError> {
        let (status, mode) = match blas.get_pointer_mode() {
            Request::GetPointerMode { handle } => match self.handles.get(&handle.address) {
                Some(state) => (cublasStatus_t::CUBLAS_STATUS_SUCCESS, state.pointer_mode),
                None => (
                    cublasStatus_t::CUBLAS_STATUS_NOT_INITIALIZED,
                    cublasPointerMode_t::CUBLAS_POINTER_MODE_HOST,
                ),
            },
            other => panic!("unexpected request {:?}", other),
        };
        blas.pointer_mode_reported(status, mode)
    }

    fn set_stream(
        &mut self,
        blas: &mut CudaBlas,
        stream: Arc<CudaStream>,
    ) -> Result<(), CublasError> {
        let request = blas.set_stream(stream);
        match self.perform(request) {
            Reply::Completed { status } => blas.stream_set(status),
            other => panic!("unexpected reply {:?}", other),
        }
    }

    fn drop_blas(&mut self, blas: &mut CudaBlas) -> Result<(), Fatal> {
        match blas.teardown() {
            Some(request) => match self.perform(request) {
                Reply::Completed { status } => status.release_result(),
                other => panic!("unexpected reply {:?}", other),
            },
            None => Ok(()),
        }
    }

    /// Carries out a dispatch step by step and hands the status back.
    fn run(&mut self, dispatch: &Dispatch) -> Result<(), CublasError> {
        let mut status = None;
        for step in dispatch.schedule() {
            match step {
                Step::Capture(capture) => {
                    assert!(status.is_none(), "captured after the invocation");
                    assert!(self.memory.contains_key(&capture.address));
                    assert_eq!(self.memory[&capture.address].len(), capture.len);
                    if let Some(earlier) = capture.after {
                        assert_ne!(earlier, capture.stream);
                        self.waits.push((capture.stream, earlier));
                    }
                    self.tied.push(capture);
                }
                Step::Invoke => {
                    assert_eq!(self.tied, vec![dispatch.a, dispatch.b, dispatch.c]);
                    status = Some(self.invoke(dispatch));
                }
                Step::Release(capture) => {
                    assert!(status.is_some(), "released before the invocation");
                    assert_eq!(self.tied.pop(), Some(capture));
                }
            }
        }
        assert!(self.tied.is_empty());
        dispatch.complete(status.unwrap())
    }

    fn invoke(&mut self, dispatch: &Dispatch) -> cublasStatus_t {
        let stream = match self.handles.get(&dispatch.handle.address) {
            Some(state) => {
                assert_eq!(
                    state.pointer_mode,
                    cublasPointerMode_t::CUBLAS_POINTER_MODE_HOST,
                    "host coefficients handed to a handle in device mode"
                );
                state.stream
            }
            None => return cublasStatus_t::CUBLAS_STATUS_NOT_INITIALIZED,
        };
        for capture in [dispatch.a, dispatch.b, dispatch.c] {
            assert_eq!(capture.stream, stream, "operand tied to another stream");
        }
        assert_eq!(dispatch.a.access, Access::Read);
        assert_eq!(dispatch.b.access, Access::Read);
        assert_eq!(dispatch.c.access, Access::Write);
        self.enqueued.push((stream, dispatch.primitive));
        let a = self.memory[&dispatch.a.address].clone();
        let b = self.memory[&dispatch.b.address].clone();
        let c = self.memory.get_mut(&dispatch.c.address).unwrap();
        let f32_type = cudaDataType_t::CUDA_R_32F;
        let f64_type = cudaDataType_t::CUDA_R_64F;
        match dispatch.primitive {
            Primitive::Sgemv(cfg) => gemv_host(
                cfg.trans,
                cfg.m,
                cfg.n,
                from_single(cfg.alpha),
                &a,
                cfg.lda,
                &b,
                cfg.incx,
                from_single(cfg.beta),
                c,
                cfg.incy,
                round32,
            ),
            Primitive::Dgemv(cfg) => gemv_host(
                cfg.trans,
                cfg.m,
                cfg.n,
                from_double(cfg.alpha),
                &a,
                cfg.lda,
                &b,
                cfg.incx,
                from_double(cfg.beta),
                c,
                cfg.incy,
                exact,
            ),
            Primitive::Sgemm(cfg) => gemm_host(
                &shape_of(&cfg),
                from_single(cfg.alpha),
                from_single(cfg.beta),
                &a,
                &b,
                c,
                (0, 0, 0),
                round32,
                f32_type,
            ),
            Primitive::Dgemm(cfg) => gemm_host(
                &shape_of(&cfg),
                from_double(cfg.alpha),
                from_double(cfg.beta),
                &a,
                &b,
                c,
                (0, 0, 0),
                exact,
                f64_type,
            ),
            Primitive::GemmEx { cfg, a_type, b_type, c_type, compute_type, algo } => {
                if a_type != b_type || a_type != c_type {
                    return cublasStatus_t::CUBLAS_STATUS_NOT_SUPPORTED;
                }
                if compute_type != cublasComputeType_t::CUBLAS_COMPUTE_32F
                    || algo != cublasGemmAlgo_t::CUBLAS_GEMM_DEFAULT
                {
                    return cublasStatus_t::CUBLAS_STATUS_NOT_SUPPORTED;
                }
                gemm_host(
                    &shape_of(&cfg),
                    from_single(cfg.alpha),
                    from_single(cfg.beta),
                    &a,
                    &b,
                    c,
                    (0, 0, 0),
                    round32,
                    c_type,
                )
            }
            Primitive::SgemmStridedBatched(cfg) => batch_host(
                &shape_of(&cfg.gemm),
                from_single(cfg.gemm.alpha),
                from_single(cfg.gemm.beta),
                &a,
                &b,
                c,
                &cfg_strides(&cfg),
                round32,
                f32_type,
            ),
            Primitive::DgemmStridedBatched(cfg) => batch_host(
                &shape_of(&cfg.gemm),
                from_double(cfg.gemm.alpha),
                from_double(cfg.gemm.beta),
                &a,
                &b,
                c,
                &cfg_strides(&cfg),
                exact,
                f64_type,
            ),
            Primitive::GemmStridedBatchedEx { cfg, a_type, b_type, c_type, compute_type, algo } => {
                if a_type != b_type || a_type != c_type {
                    return cublasStatus_t::CUBLAS_STATUS_NOT_SUPPORTED;
                }
                if compute_type != cublasComputeType_t::CUBLAS_COMPUTE_32F
                    || algo != cublasGemmAlgo_t::CUBLAS_GEMM_DEFAULT
                {
                    return cublasStatus_t::CUBLAS_STATUS_NOT_SUPPORTED;
                }
                batch_host(
                    &shape_of(&cfg.gemm),
                    from_single(cfg.gemm.alpha),
                    from_single(cfg.gemm.beta),
                    &a,
                    &b,
                    c,
                    &cfg_strides(&cfg),
                    round32,
                    c_type,
                )
            }
        }
    }
}

struct Shape {
    transa: cublasOperation_t,
    transb: cublasOperation_t,
    m: i32,
    n: i32,
    k: i32,
    lda: i32,
    ldb: i32,
    ldc: i32,
}

struct Strides {
    batch_size: i32,
    a: i64,
    b: i64,
    c: i64,
}

fn shape_of<T>(cfg: &GemmConfig<T>) -> Shape {
    Shape {
        transa: cfg.transa,
        transb: cfg.transb,
        m: cfg.m,
        n: cfg.n,
        k: cfg.k,
        lda: cfg.lda,
        ldb: cfg.ldb,
        ldc: cfg.ldc,
    }
}

fn cfg_strides<T>(cfg: &StridedBatchedConfig<T>) -> Strides {
    Strides { batch_size: cfg.batch_size, a: cfg.stride_a, b: cfg.stride_b, c: cfg.stride_c }
}

/// The matrix-vector product of the vendor library, on host memory.
fn gemv_host(
    trans: cublasOperation_t,
    m: i32,
    n: i32,
    alpha: f64,
    a: &[f64],
    lda: i32,
    x: &[f64],
    incx: i32,
    beta: f64,
    y: &mut [f64],
    incy: i32,
    round: fn(f64) -> f64,
) -> cublasStatus_t {
    if m < 0 || n < 0 || incx == 0 || incy == 0 || lda < std::cmp::max(1, m) {
        return cublasStatus_t::CUBLAS_STATUS_INVALID_VALUE;
    }
    let (m, n, lda) = (m as usize, n as usize, lda as usize);
    let (incx, incy) = (incx.unsigned_abs() as usize, incy.unsigned_abs() as usize);
    let plain = trans == cublasOperation_t::CUBLAS_OP_N;
    let (rows, cols) = if plain { (m, n) } else { (n, m) };
    for i in 0..rows {
        let mut sum = if beta == 0.0 { 0.0 } else { round(y[i * incy] * beta) };
        for j in 0..cols {
            let element = if plain { a[i + j * lda] } else { a[j + i * lda] };
            sum = round(sum + round(round(alpha * element) * x[j * incx]));
        }
        y[i * incy] = round(sum);
    }
    cublasStatus_t::CUBLAS_STATUS_SUCCESS
}

/// The matrix product of the vendor library, on host memory, with each
/// operand found `offsets` elements into its buffer.
fn gemm_host(
    shape: &Shape,
    alpha: f64,
    beta: f64,
    a: &[f64],
    b: &[f64],
    c: &mut [f64],
    offsets: (usize, usize, usize),
    round: fn(f64) -> f64,
    storage: cudaDataType_t,
) -> cublasStatus_t {
    let plain_a = shape.transa == cublasOperation_t::CUBLAS_OP_N;
    let plain_b = shape.transb == cublasOperation_t::CUBLAS_OP_N;
    let rows_a = if plain_a { shape.m } else { shape.k };
    let rows_b = if plain_b { shape.k } else { shape.n };
    if shape.m < 0
        || shape.n < 0
        || shape.k < 0
        || shape.lda < std::cmp::max(1, rows_a)
        || shape.ldb < std::cmp::max(1, rows_b)
        || shape.ldc < std::cmp::max(1, shape.m)
    {
        return cublasStatus_t::CUBLAS_STATUS_INVALID_VALUE;
    }
    let (m, n, k) = (shape.m as usize, shape.n as usize, shape.k as usize);
    let (lda, ldb, ldc) = (shape.lda as usize, shape.ldb as usize, shape.ldc as usize);
    for i in 0..m {
        for j in 0..n {
            let at = offsets.2 + i + j * ldc;
            let mut sum = if beta == 0.0 { 0.0 } else { round(c[at] * beta) };
            for l in 0..k {
                let left = if plain_a { a[offsets.0 + i + l * lda] } else { a[offsets.0 + l + i * lda] };
                let right =
                    if plain_b { b[offsets.1 + l + j * ldb] } else { b[offsets.1 + j + l * ldb] };
                sum = round(sum + round(round(alpha * left) * right));
            }
            c[at] = store_as(storage, sum);
        }
    }
    cublasStatus_t::CUBLAS_STATUS_SUCCESS
}

fn batch_host(
    shape: &Shape,
    alpha: f64,
    beta: f64,
    a: &[f64],
    b: &[f64],
    c: &mut [f64],
    strides: &Strides,
    round: fn(f64) -> f64,
    storage: cudaDataType_t,
) -> cublasStatus_t {
    if strides.batch_size < 0 {
        return cublasStatus_t::CUBLAS_STATUS_INVALID_VALUE;
    }
    for index in 0..strides.batch_size as usize {
        let offsets =
            (index * strides.a as usize, index * strides.b as usize, index * strides.c as usize);
        let status = gemm_host(shape, alpha, beta, a, b, c, offsets, round, storage);
        if status != cublasStatus_t::CUBLAS_STATUS_SUCCESS {
            return status;
        }
    }
    cublasStatus_t::CUBLAS_STATUS_SUCCESS
}

fn gemv_truth<T, const M: usize, const N: usize>(
    alpha: T,
    a: &[[T; N]; M],
    x: &[T; N],
    beta: T,
    y: &mut [T; M],
) where
    T: Copy + Clone + std::ops::AddAssign + std::ops::MulAssign + std::ops::Mul<T, Output = T>,
{
    for m in 0..M {
        y[m] *= beta;
    }
    for m in 0..M {
        for n in 0..N {
            y[m] += alpha * a[m][n] * x[n];
        }
    }
}

fn gemm_truth<T, const M: usize, const N: usize, const K: usize>(
    alpha: T,
    a: &[[T; K]; M],
    b: &[[T; N]; K],
    beta: T,
    c: &mut [[T; N]; M],
) where
    T: Copy + Clone + std::ops::AddAssign + std::ops::MulAssign + std::ops::Mul<T, Output = T>,
{
    for m in 0..M {
        for n in 0..N {
            c[m][n] *= beta;
        }
    }
    for m in 0..M {
        for n in 0..N {
            for k in 0..K {
                c[m][n] += alpha * a[m][k] * b[k][n];
            }
        }
    }
}

#[test]
fn test_sgemv() {
    let mut ctx = Device::new(0);
    let stream = ctx.default_stream();
    let blas = ctx.create(CudaBlas::new(stream.clone())).unwrap();
    const M: usize = 2;
    const N: usize = 5;
    let a: [[f32; N]; M] = [
        [0.9314776, 0.10300648, -0.620774, 1.5270752, 0.0259804],
        [0.16820757, -0.94463515, -1.3850101, 1.0600523, 1.5124008],
    ];
    let b: [f32; N] = [-1.3441996, 1.3965541, -0.89106345, 0.21196432, -0.95535654];
    let mut c: [f32; M] = [1.0; M];
    gemv_truth(1.0, &a, &b, 0.0, &mut c);

    let a_dev = ctx.memcpy_stod(&[
        0.9314776, 0.10300648, -0.620774, 1.527075, 0.0259804,
        0.16820757, -0.94463515, -1.3850101, 1.0600523, 1.5124008,
    ]);
    let b_dev = ctx.memcpy_stod(&b);
    let mut c_dev = ctx.alloc_zeros(M);
    let dispatch = blas.gemv(
        GemvConfig {
            trans: cublasOperation_t::CUBLAS_OP_T,
            m: N as i32,
            n: M as i32,
            alpha: single(1.0),
            lda: N as i32,
            incx: 1,
            beta: single(0.0),
            incy: 1,
        },
        &a_dev,
        &b_dev,
        &mut c_dev,
    );
    ctx.run(&dispatch).unwrap();

    let c_host = ctx.memcpy_dtov(&c_dev);
    for i in 0..M {
        assert!((c_host[i] - c[i]).abs() <= 1e-6);
    }
}

#[test]
fn test_dgemv() {
    let mut ctx = Device::new(0);
    let stream = ctx.default_stream();
    let blas = ctx.create(CudaBlas::new(stream.clone())).unwrap();
    const M: usize = 8;
    const N: usize = 3;
    let a: [[f64; N]; M] = [
        [0.96151888, -0.36771390, 0.94069099],
        [2.20621538, -0.16479775, -1.78425562],
        [0.41080803, -0.56567699, -0.72781092],
        [-0.65718418, -0.14466463, 0.63984287],
        [0.20309605, 0.40480086, -1.57559848],
        [0.85628128, -0.51614553, -1.15904427],
        [-1.84258616, 0.24096519, -0.04563522],
        [-0.53364468, -1.07902217, 0.46823528],
    ];
    let b: [f64; N] = [ 0.39745075, -1.06677043, -1.18272650];
    let mut c: [f64; M] = [1.0; M];
    gemv_truth(1.0, &a, &b, 0.0, &mut c);

    let a_dev = ctx.memcpy_stod_f64(&[
        0.96151888, -0.36771390, 0.94069099,
        2.20621538, -0.16479775, -1.78425562,
        0.41080803, -0.56567699, -0.72781092,
        -0.65718418, -0.14466463, 0.63984287,
        0.20309605, 0.40480086, -1.57559848,
        0.85628128, -0.51614553, -1.15904427,
        -1.84258616, 0.24096519, -0.04563522,
        -0.53364468, -1.07902217, 0.46823528,
    ]);
    let b_dev = ctx.memcpy_stod_f64(&b);
    let mut c_dev = ctx.alloc_zeros(M);
    let dispatch = blas.gemv(
        GemvConfig {
            trans: cublasOperation_t::CUBLAS_OP_T,
            m: N as i32,
            n: M as i32,
            alpha: double(1.0),
            lda: N as i32,
            incx: 1,
            beta: double(0.0),
            incy: 1,
        },
        &a_dev,
        &b_dev,
        &mut c_dev,
    );
    ctx.run(&dispatch).unwrap();

    let c_host = ctx.memcpy_dtov_f64(&c_dev);
    for i in 0..M {
        assert!((c_host[i] - c[i]).abs() <= 1e-8);
    }
}

#[test]
fn test_hgemm() {
    let mut ctx = Device::new(0);
    let stream = ctx.default_stream();
    let blas = ctx.create(CudaBlas::new(stream.clone())).unwrap();
    const M: usize = 3;
    const K: usize = 4;
    const N: usize = 5;
    let a: [[half::f16; K]; M] = [
        [-0.5944882, 1.8055636, 0.52204555, -0.00397902],
        [-0.38346434, -0.38013917, 0.4198623, -0.22479166],
        [-1.6661372, -0.4568837, -0.9043474, 0.39125723],
    ]
    .map(|r| r.map(half::f16::from_f32));
    let b: [[half::f16; N]; K] = [
        [1.1292169, -0.13450263, 0.62789696, -0.5685516, 0.21946938],
        [1.0585804, -0.39789402, 0.90205914, 0.989318, -0.3443096],
        [1.3412506, 0.3059701, -0.9714474, -0.36113533, -1.6809629],
        [3.4746711, -1.0930681, 0.16502666, -0.59988785, 0.41375792],
    ]
    .map(|r| r.map(half::f16::from_f32));
    let mut c: [[half::f16; N]; M] = [[0.0; N]; M].map(|r| r.map(half::f16::from_f32));
    gemm_truth(
        half::f16::from_f32(1.0),
        &a,
        &b,
        half::f16::from_f32(0.0),
        &mut c,
    );

    let a_dev = ctx.memcpy_stod_f16(&[
        -0.5944882, 1.8055636, 0.52204555, -0.00397902,
        -0.38346434, -0.38013917, 0.4198623, -0.22479166,
        -1.6661372, -0.4568837, -0.9043474, 0.39125723,
    ].map(half::f16::from_f32));
    let b_dev = ctx.memcpy_stod_f16(&[
        1.1292169, -0.13450263, 0.62789696, -0.5685516, 0.21946938,
        1.0585804, -0.39789402, 0.90205914, 0.989318, -0.3443096,
        1.3412506, 0.3059701, -0.9714474, -0.36113533, -1.6809629,
        3.4746711, -1.0930681, 0.16502666, -0.59988785, 0.41375792,
    ].map(half::f16::from_f32));
    let mut c_dev = ctx.alloc_zeros::<Binary16>(M * N);
    // The library takes the coefficients of a binary16 product widened.
    let dispatch = blas.gemm_ex(
        GemmConfig {
            transa: cublasOperation_t::CUBLAS_OP_N,
            transb: cublasOperation_t::CUBLAS_OP_N,
            m: N as i32,
            n: M as i32,
            k: K as i32,
            alpha: single(half::f16::from_f32(1.0).to_f32()),
            lda: N as i32,
            ldb: K as i32,
            beta: single(half::f16::from_f32(0.0).to_f32()),
            ldc: N as i32,
        },
        &b_dev,
        &a_dev,
        &mut c_dev,
    );
    ctx.run(&dispatch).unwrap();

    let c_host = ctx.memcpy_dtov_f16(&c_dev);
    for m in 0..M {
        for n in 0..N {
            let found = c_host[m * N + n];
            let expected = c[m][n];
            assert!(
                (found - expected) <= half::f16::from_f32(1e-2),
                "found={found:?}, expected={expected:?}"
            );
        }
    }

    let a_dev = ctx.memcpy_stod_bf16(&[
        -0.5944882, 1.8055636, 0.52204555, -0.00397902,
        -0.38346434, -0.38013917, 0.4198623, -0.22479166,
        -1.6661372, -0.4568837, -0.9043474, 0.39125723,
    ].map(half::bf16::from_f32));
    let b_dev = ctx.memcpy_stod_bf16(&[
        1.1292169, -0.13450263, 0.62789696, -0.5685516, 0.21946938,
        1.0585804, -0.39789402, 0.90205914, 0.989318, -0.3443096,
        1.3412506, 0.3059701, -0.9714474, -0.36113533, -1.6809629,
        3.4746711, -1.0930681, 0.16502666, -0.59988785, 0.41375792,
    ].map(half::bf16::from_f32));
    let mut c_dev = ctx.alloc_zeros::<BFloat16>(M * N);
    let dispatch = blas.gemm(
        GemmConfig {
            transa: cublasOperation_t::CUBLAS_OP_N,
            transb: cublasOperation_t::CUBLAS_OP_N,
            m: N as i32,
            n: M as i32,
            k: K as i32,
            alpha: BFloat16::from_bits(half::bf16::from_f32(1.0).to_bits()),
            lda: N as i32,
            ldb: K as i32,
            beta: BFloat16::from_bits(half::bf16::from_f32(0.0).to_bits()),
            ldc: N as i32,
        },
        &b_dev,
        &a_dev,
        &mut c_dev,
    );
    ctx.run(&dispatch).unwrap();
    let c_host = ctx.memcpy_dtov_bf16(&c_dev);
    for m in 0..M {
        for n in 0..N {
            let found = c_host[m * N + n];
            let expected = c[m][n];
            assert!(
                (half::bf16::to_f32(found) - half::f16::to_f32(expected)) <= 1e-2,
                "found={found:?}, expected={expected:?}"
            );
        }
    }
}

#[test]
fn test_sgemm() {
    let mut ctx = Device::new(0);
    let stream = ctx.default_stream();
    let blas = ctx.create(CudaBlas::new(stream.clone())).unwrap();
    const M: usize = 3;
    const K: usize = 4;
    const N: usize = 5;
    let a: [[f32; K]; M] = [
        [-0.5944882, 1.8055636, 0.52204555, -0.00397902],
        [-0.38346434, -0.38013917, 0.4198623, -0.22479166],
        [-1.6661372, -0.4568837, -0.9043474, 0.39125723],
    ];
    let b: [[f32; N]; K] = [
        [1.1292169, -0.13450263, 0.62789696, -0.5685516, 0.21946938],
        [1.0585804, -0.39789402, 0.90205914, 0.989318, -0.3443096],
        [1.3412506, 0.3059701, -0.9714474, -0.36113533, -1.6809629],
        [3.4746711, -1.0930681, 0.16502666, -0.59988785, 0.41375792],
    ];
    let mut c: [[f32; N]; M] = [[0.0; N]; M];
    gemm_truth(1.0, &a, &b, 0.0, &mut c);

    let a_dev = ctx.memcpy_stod(&[
        -0.5944882, 1.8055636, 0.52204555, -0.00397902,
        -0.38346434, -0.38013917, 0.4198623, -0.22479166,
        -1.6661372, -0.4568837, -0.9043474, 0.39125723,
    ]);
    let b_dev = ctx.memcpy_stod(&[
        1.1292169, -0.13450263, 0.62789696, -0.5685516, 0.21946938,
        1.0585804, -0.39789402, 0.90205914, 0.989318, -0.3443096,
        1.3412506, 0.3059701, -0.9714474, -0.36113533, -1.6809629,
        3.4746711, -1.0930681, 0.16502666, -0.59988785, 0.41375792,
    ]);
    let mut c_dev = ctx.alloc_zeros::<Binary32>(M * N);
    let dispatch = blas.gemm(
        GemmConfig {
            transa: cublasOperation_t::CUBLAS_OP_N,
            transb: cublasOperation_t::CUBLAS_OP_N,
            m: N as i32,
            n: M as i32,
            k: K as i32,
            alpha: single(1.0),
            lda: N as i32,
            ldb: K as i32,
            beta: single(0.0),
            ldc: N as i32,
        },
        &b_dev,
        &a_dev,
        &mut c_dev,
    );
    ctx.run(&dispatch).unwrap();

    let c_host = ctx.memcpy_dtov(&c_dev);
    for m in 0..M {
        for n in 0..N {
            assert!((c_host[m * N + n] - c[m][n]) <= 1e-6);
        }
    }
}

#[test]
fn test_dgemm() {
    let mut ctx = Device::new(0);
    let stream = ctx.default_stream();
    let blas = ctx.create(CudaBlas::new(stream.clone())).unwrap();
    const M: usize = 4;
    const K: usize = 3;
    const N: usize = 2;
    let a: [[f64; K]; M] = [
        [-0.70925030, -1.01357541, -0.64827034],
        [2.18493467, -0.61584842, -1.43844327],
        [-1.34792593, 0.68840750, -0.48057214],
        [1.22180992, 1.16245157, 0.01253436],
    ];
    let b: [[f64; N]; K] = [
        [-0.72735474, 1.35931170],
        [1.71798307, -0.13296247],
        [0.26855612, -1.95189980],
    ];
    let mut c: [[f64; N]; M] = [[0.0; N]; M];
    gemm_truth(1.0, &a, &b, 0.0, &mut c);

    let a_dev = ctx.memcpy_stod_f64(&[
        -0.70925030, -1.01357541, -0.64827034,
        2.18493467, -0.61584842, -1.43844327,
        -1.34792593, 0.68840750, -0.48057214,
        1.22180992, 1.16245157, 0.01253436,
    ]);
    let b_dev = ctx.memcpy_stod_f64(&[
        -0.72735474, 1.35931170,
        1.71798307, -0.13296247,
        0.26855612, -1.95189980,
    ]);
    let mut c_dev = ctx.alloc_zeros::<Binary64>(M * N);
    let dispatch = blas.gemm(
        GemmConfig {
            transa: cublasOperation_t::CUBLAS_OP_N,
            transb: cublasOperation_t::CUBLAS_OP_N,
            m: N as i32,
            n: M as i32,
            k: K as i32,
            alpha: double(1.0),
            lda: N as i32,
            ldb: K as i32,
            beta: double(0.0),
            ldc: N as i32,
        },
        &b_dev,
        &a_dev,
        &mut c_dev,
    );
    ctx.run(&dispatch).unwrap();

    let c_host = ctx.memcpy_dtov_f64(&c_dev);
    for m in 0..M {
        for n in 0..N {
            assert!((c_host[m * N + n] - c[m][n]) <= 1e-10);
        }
    }
}

#[test]
fn cublas_pointer_mode() {
    let mut ctx = Device::new(0);
    let stream = ctx.default_stream();
    let mut blas = ctx.create(CudaBlas::new(stream.clone())).unwrap();
    assert_eq!(
        ctx.get_pointer_mode(&mut blas).unwrap(),
        cublasPointerMode_t::CUBLAS_POINTER_MODE_HOST,
        "The default pointer mode uses host pointers"
    );

    ctx.set_pointer_mode(&mut blas, cublasPointerMode_t::CUBLAS_POINTER_MODE_DEVICE)
        .unwrap();
    assert_eq!(
        ctx.get_pointer_mode(&mut blas).unwrap(),
        cublasPointerMode_t::CUBLAS_POINTER_MODE_DEVICE,
        "We have set the mode to use device pointers"
    );
}

#[test]
fn pointer_mode_is_tracked_by_the_context() {
    let mut ctx = Device::new(0);
    let stream = ctx.default_stream();
    let mut blas = ctx.create(CudaBlas::new(stream)).unwrap();
    assert_eq!(blas.pointer_mode(), cublasPointerMode_t::CUBLAS_POINTER_MODE_HOST);

    let device = cublasPointerMode_t::CUBLAS_POINTER_MODE_DEVICE;
    let refused =
        blas.pointer_mode_set(device, cublasStatus_t::CUBLAS_STATUS_INVALID_VALUE);
    assert_eq!(
        refused,
        Err(CublasError::Configuration(cublasStatus_t::CUBLAS_STATUS_INVALID_VALUE))
    );
    assert_eq!(blas.pointer_mode(), cublasPointerMode_t::CUBLAS_POINTER_MODE_HOST);

    assert_eq!(blas.pointer_mode_set(device, cublasStatus_t::CUBLAS_STATUS_SUCCESS), Ok(()));
    assert_eq!(blas.pointer_mode(), device);

    let host = cublasPointerMode_t::CUBLAS_POINTER_MODE_HOST;
    assert_eq!(
        blas.pointer_mode_reported(cublasStatus_t::CUBLAS_STATUS_NOT_INITIALIZED, host),
        Err(CublasError::Configuration(cublasStatus_t::CUBLAS_STATUS_NOT_INITIALIZED))
    );
    assert_eq!(blas.pointer_mode(), device);
    assert_eq!(blas.pointer_mode_reported(cublasStatus_t::CUBLAS_STATUS_SUCCESS, host), Ok(host));
    assert_eq!(blas.pointer_mode(), host);
}

#[test]
fn construction_binds_thread_then_handle_then_stream() {
    let mut ctx = Device::new(3);
    let stream = ctx.new_stream(0x55);
    let construction = CudaBlas::new(stream.clone());
    assert_eq!(construction.request(), Some(Request::Create { context: 3 }));

    let reply = ctx.perform(construction.request().unwrap());
    assert_eq!(ctx.bound_thread, Some(3));
    let handle = match reply {
        Reply::Created { status, handle } => {
            assert_eq!(status, cublasStatus_t::CUBLAS_STATUS_SUCCESS);
            handle
        }
        other => panic!("unexpected reply {:?}", other),
    };
    let construction = construction.step(reply);
    assert_eq!(construction.request(), Some(Request::SetStream { handle, stream: 0x55 }));

    let reply = ctx.perform(construction.request().unwrap());
    let construction = construction.step(reply);
    assert_eq!(construction.request(), None);
    match construction {
        Construction::Ready { blas } => {
            assert_eq!(*blas.handle(), handle);
            assert!(blas.is_live());
            assert_eq!(**blas.stream(), *stream);
            assert_eq!(blas.pointer_mode(), cublasPointerMode_t::CUBLAS_POINTER_MODE_HOST);
            assert_eq!(ctx.handles[&handle.address].stream, 0x55);
        }
        other => panic!("unexpected end {:?}", other),
    }
}

#[test]
fn creation_failure_is_reported_and_nothing_is_released() {
    let mut ctx = Device::new(0);
    ctx.fail_create = Some(cublasStatus_t::CUBLAS_STATUS_ALLOC_FAILED);
    let stream = ctx.default_stream();
    let error = ctx.create(CudaBlas::new(stream)).unwrap_err();
    assert_eq!(error, CublasError::HandleCreation(cublasStatus_t::CUBLAS_STATUS_ALLOC_FAILED));
    assert_eq!(error.status(), cublasStatus_t::CUBLAS_STATUS_ALLOC_FAILED);
    assert!(ctx.destroyed.is_empty());
    assert!(ctx.handles.is_empty());
}

#[test]
fn success_without_a_handle_is_a_creation_failure() {
    let stream = Arc::new(CudaStream::new(0, 0));
    let construction = CudaBlas::new(stream).step(Reply::Created {
        status: cublasStatus_t::CUBLAS_STATUS_SUCCESS,
        handle: cublasHandle_t::null(),
    });
    match construction {
        Construction::Failed { error } => {
            assert_eq!(error, CublasError::HandleCreation(cublasStatus_t::CUBLAS_STATUS_SUCCESS))
        }
        other => panic!("unexpected end {:?}", other),
    }
}

#[test]
fn refused_binding_releases_the_handle_exactly_once() {
    let mut ctx = Device::new(0);
    ctx.fail_set_stream = Some(cublasStatus_t::CUBLAS_STATUS_INVALID_VALUE);
    let stream = ctx.default_stream();
    let error = ctx.create(CudaBlas::new(stream)).unwrap_err();
    assert_eq!(error, CublasError::Configuration(cublasStatus_t::CUBLAS_STATUS_INVALID_VALUE));
    assert_eq!(ctx.destroyed, vec![0x7000]);
    assert!(ctx.handles.is_empty(), "the handle leaked");
}

#[test]
fn refused_binding_asks_for_the_release_before_it_fails() {
    let stream = Arc::new(CudaStream::new(0, 0x20));
    let handle = cublasHandle_t { address: 0xbeef };
    let success = cublasStatus_t::CUBLAS_STATUS_SUCCESS;
    let refusal = cublasStatus_t::CUBLAS_STATUS_NOT_SUPPORTED;
    let construction = CudaBlas::new(stream).step(Reply::Created { status: success, handle });
    let construction = construction.step(Reply::Completed { status: refusal });
    assert_eq!(construction.request(), Some(Request::Destroy { handle }));
    // A reply of the wrong kind changes nothing.
    let construction = construction.step(Reply::Created { status: success, handle });
    assert_eq!(construction.request(), Some(Request::Destroy { handle }));
    let construction = construction.step(Reply::Completed { status: success });
    assert_eq!(construction.request(), None);
    match &construction {
        Construction::Failed { error } => assert_eq!(*error, CublasError::Configuration(refusal)),
        other => panic!("unexpected end {:?}", other),
    }
    // A construction that has ended takes no more replies.
    let construction = construction.step(Reply::Completed { status: refusal });
    assert!(matches!(construction, Construction::Failed { .. }));
    assert_eq!(construction.request(), None);
}

#[test]
fn failed_release_aborts_the_construction() {
    let stream = Arc::new(CudaStream::new(0, 0));
    let handle = cublasHandle_t { address: 0x10 };
    let construction = CudaBlas::new(stream)
        .step(Reply::Created { status: cublasStatus_t::CUBLAS_STATUS_SUCCESS, handle })
        .step(Reply::Completed { status: cublasStatus_t::CUBLAS_STATUS_INVALID_VALUE })
        .step(Reply::Completed { status: cublasStatus_t::CUBLAS_STATUS_INTERNAL_ERROR });
    match construction {
        Construction::Aborted { fatal } => {
            assert_eq!(fatal, Fatal { status: cublasStatus_t::CUBLAS_STATUS_INTERNAL_ERROR })
        }
        other => panic!("unexpected end {:?}", other),
    }
}

#[test]
fn teardown_releases_once_and_is_idempotent() {
    let mut ctx = Device::new(0);
    let stream = ctx.default_stream();
    let mut blas = ctx.create(CudaBlas::new(stream)).unwrap();
    let handle = *blas.handle();
    assert!(!handle.is_null());

    assert_eq!(blas.teardown(), Some(Request::Destroy { handle }));
    assert!(blas.handle().is_null());
    assert!(!blas.is_live());
    assert_eq!(blas.teardown(), None);
    assert_eq!(blas.teardown(), None);

    let mut blas = ctx.create(CudaBlas::new(ctx.default_stream())).unwrap();
    let second = blas.handle().address;
    assert_eq!(ctx.drop_blas(&mut blas), Ok(()));
    assert_eq!(ctx.drop_blas(&mut blas), Ok(()));
    assert_eq!(ctx.destroyed, vec![second]);
}

#[test]
fn failed_teardown_is_fatal() {
    let mut ctx = Device::new(0);
    let stream = ctx.default_stream();
    let mut blas = ctx.create(CudaBlas::new(stream)).unwrap();
    ctx.fail_destroy = Some(cublasStatus_t::CUBLAS_STATUS_NOT_INITIALIZED);
    assert_eq!(
        ctx.drop_blas(&mut blas),
        Err(Fatal { status: cublasStatus_t::CUBLAS_STATUS_NOT_INITIALIZED })
    );
    assert_eq!(cublasStatus_t::CUBLAS_STATUS_SUCCESS.release_result(), Ok(()));
}

#[test]
fn set_stream_rebinds_even_when_the_library_refuses() {
    let mut ctx = Device::new(0);
    let stream = ctx.default_stream();
    let mut blas = ctx.create(CudaBlas::new(stream)).unwrap();
    let handle = *blas.handle();

    let other = ctx.new_stream(0x99);
    let request = blas.set_stream(other.clone());
    assert_eq!(request, Request::SetStream { handle, stream: 0x99 });
    assert_eq!(**blas.stream(), *other);

    assert_eq!(blas.stream_set(cublasStatus_t::CUBLAS_STATUS_SUCCESS), Ok(()));
    assert_eq!(
        blas.stream_set(cublasStatus_t::CUBLAS_STATUS_NOT_INITIALIZED),
        Err(CublasError::Configuration(cublasStatus_t::CUBLAS_STATUS_NOT_INITIALIZED))
    );
    assert_eq!(**blas.stream(), *other);
    assert_eq!(*blas.handle(), handle);

    // Later dispatches tie their buffers to the new stream.
    let a = DeviceSlice::<Binary32>::new(0x100, 1);
    let x = DeviceSlice::<Binary32>::new(0x200, 1);
    let mut y = DeviceSlice::<Binary32>::new(0x300, 1);
    let cfg = GemvConfig {
        trans: cublasOperation_t::CUBLAS_OP_N,
        m: 1,
        n: 1,
        alpha: single(1.0),
        lda: 1,
        incx: 1,
        beta: single(0.0),
        incy: 1,
    };
    let dispatch = blas.gemv(cfg, &a, &x, &mut y);
    assert_eq!(dispatch.a.stream, 0x99);
    assert_eq!(dispatch.b.stream, 0x99);
    assert_eq!(dispatch.c.stream, 0x99);
    assert_eq!(dispatch.handle, handle);

    let third = ctx.new_stream(0x77);
    ctx.fail_set_stream = Some(cublasStatus_t::CUBLAS_STATUS_INVALID_VALUE);
    assert_eq!(
        ctx.set_stream(&mut blas, third.clone()),
        Err(CublasError::Configuration(cublasStatus_t::CUBLAS_STATUS_INVALID_VALUE))
    );
    assert_eq!(blas.stream().cu_stream(), 0x77);
    assert_eq!(*blas.handle(), handle);
}

#[test]
fn gemv_marshals_the_configuration_and_ties_the_buffers() {
    let mut ctx = Device::new(0);
    let stream = ctx.new_stream(0x42);
    let blas = ctx.create(CudaBlas::new(stream)).unwrap();
    let a = DeviceSlice::<Binary32>::new(0x100, 10);
    let x = DeviceSlice::<Binary32>::new(0x200, 5);
    let mut y = DeviceSlice::<Binary32>::new(0x300, 2);
    let cfg = GemvConfig {
        trans: cublasOperation_t::CUBLAS_OP_T,
        m: 5,
        n: 2,
        alpha: single(1.5),
        lda: 5,
        incx: 1,
        beta: single(-2.0),
        incy: 1,
    };
    let dispatch = blas.gemv(cfg, &a, &x, &mut y);
    assert_eq!(
        dispatch,
        Dispatch {
            handle: *blas.handle(),
            a: Capture {
                address: 0x100,
                len: 10,
                stream: 0x42,
                access: Access::Read,
                after: None,
            },
            b: Capture { address: 0x200, len: 5, stream: 0x42, access: Access::Read, after: None },
            c: Capture {
                address: 0x300,
                len: 2,
                stream: 0x42,
                access: Access::Write,
                after: None,
            },
            primitive: Primitive::Sgemv(cfg),
        }
    );
    assert_eq!(y.address(), 0x300);
    assert_eq!(y.len(), 2);
    assert_eq!(y.producer(), Some(0x42));
    assert_eq!(a.producer(), None);
    assert_eq!(
        dispatch.schedule(),
        vec![
            Step::Capture(dispatch.a),
            Step::Capture(dispatch.b),
            Step::Capture(dispatch.c),
            Step::Invoke,
            Step::Release(dispatch.c),
            Step::Release(dispatch.b),
            Step::Release(dispatch.a),
        ]
    );

    let a = DeviceSlice::<Binary64>::new(0x100, 10);
    let x = DeviceSlice::<Binary64>::new(0x200, 5);
    let mut y = DeviceSlice::<Binary64>::new(0x300, 2);
    let cfg = GemvConfig {
        trans: cublasOperation_t::CUBLAS_OP_N,
        m: 2,
        n: 5,
        alpha: double(1.5),
        lda: 2,
        incx: 1,
        beta: double(-2.0),
        incy: 1,
    };
    assert_eq!(blas.gemv(cfg, &a, &x, &mut y).primitive, Primitive::Dgemv(cfg));
}

#[test]
fn gemm_picks_the_primitive_of_the_representation() {
    let mut ctx = Device::new(0);
    let blas = ctx.create(CudaBlas::new(ctx.default_stream())).unwrap();
    let n = cublasOperation_t::CUBLAS_OP_N;
    let t = cublasOperation_t::CUBLAS_OP_T;

    let cfg = GemmConfig {
        transa: n,
        transb: t,
        m: 2,
        n: 3,
        k: 4,
        alpha: single(0.5),
        lda: 2,
        ldb: 3,
        beta: single(2.0),
        ldc: 2,
    };
    let a = DeviceSlice::<Binary32>::new(0x100, 8);
    let b = DeviceSlice::<Binary32>::new(0x200, 12);
    let mut c = DeviceSlice::<Binary32>::new(0x300, 6);
    assert_eq!(blas.gemm(cfg, &a, &b, &mut c).primitive, Primitive::Sgemm(cfg));
    let batch =
        StridedBatchedConfig { gemm: cfg, batch_size: 1, stride_a: 0, stride_b: 0, stride_c: 0 };
    assert_eq!(
        blas.gemm_strided_batched(batch, &a, &b, &mut c).primitive,
        Primitive::SgemmStridedBatched(batch)
    );

    let cfg = GemmConfig {
        transa: n,
        transb: t,
        m: 2,
        n: 3,
        k: 4,
        alpha: double(0.5),
        lda: 2,
        ldb: 3,
        beta: double(2.0),
        ldc: 2,
    };
    let a = DeviceSlice::<Binary64>::new(0x100, 8);
    let b = DeviceSlice::<Binary64>::new(0x200, 12);
    let mut c = DeviceSlice::<Binary64>::new(0x300, 6);
    assert_eq!(blas.gemm(cfg, &a, &b, &mut c).primitive, Primitive::Dgemm(cfg));
    let batch =
        StridedBatchedConfig { gemm: cfg, batch_size: 1, stride_a: 0, stride_b: 0, stride_c: 0 };
    assert_eq!(
        blas.gemm_strided_batched(batch, &a, &b, &mut c).primitive,
        Primitive::DgemmStridedBatched(batch)
    );
}

#[test]
fn bfloat16_coefficients_are_widened_before_marshalling() {
    let mut ctx = Device::new(0);
    let blas = ctx.create(CudaBlas::new(ctx.default_stream())).unwrap();
    let n = cublasOperation_t::CUBLAS_OP_N;
    // 1.0 is 0x3F80 in bfloat16 and 0x3F80_0000 in binary32; -2.5 is 0xC020
    // and 0xC020_0000.
    let cfg = GemmConfig {
        transa: n,
        transb: n,
        m: 2,
        n: 2,
        k: 2,
        alpha: BFloat16::from_bits(0x3F80),
        lda: 2,
        ldb: 2,
        beta: BFloat16::from_bits(0xC020),
        ldc: 2,
    };
    let wide = GemmConfig {
        transa: n,
        transb: n,
        m: 2,
        n: 2,
        k: 2,
        alpha: Binary32::from_bits(0x3F80_0000),
        lda: 2,
        ldb: 2,
        beta: Binary32::from_bits(0xC020_0000),
        ldc: 2,
    };
    assert_eq!(f32::from_bits(0x3F80_0000), 1.0);
    assert_eq!(f32::from_bits(0xC020_0000), -2.5);
    let a = DeviceSlice::<BFloat16>::new(0x100, 4);
    let b = DeviceSlice::<BFloat16>::new(0x200, 4);
    let mut c = DeviceSlice::<BFloat16>::new(0x300, 4);
    let bf = cudaDataType_t::CUDA_R_16BF;
    assert_eq!(
        blas.gemm(cfg, &a, &b, &mut c).primitive,
        Primitive::GemmEx {
            cfg: wide,
            a_type: bf,
            b_type: bf,
            c_type: bf,
            compute_type: cublasComputeType_t::CUBLAS_COMPUTE_32F,
            algo: cublasGemmAlgo_t::CUBLAS_GEMM_DEFAULT,
        }
    );
    let batch =
        StridedBatchedConfig { gemm: cfg, batch_size: 3, stride_a: 0, stride_b: 0, stride_c: 0 };
    let wide_batch =
        StridedBatchedConfig { gemm: wide, batch_size: 3, stride_a: 0, stride_b: 0, stride_c: 0 };
    assert_eq!(
        blas.gemm_strided_batched(batch, &a, &b, &mut c).primitive,
        Primitive::GemmStridedBatchedEx {
            cfg: wide_batch,
            a_type: bf,
            b_type: bf,
            c_type: bf,
            compute_type: cublasComputeType_t::CUBLAS_COMPUTE_32F,
            algo: cublasGemmAlgo_t::CUBLAS_GEMM_DEFAULT,
        }
    );
}

#[test]
fn gemm_ex_names_the_storage_format_of_its_operands() {
    let mut ctx = Device::new(0);
    let blas = ctx.create(CudaBlas::new(ctx.default_stream())).unwrap();
    let n = cublasOperation_t::CUBLAS_OP_N;
    let cfg = GemmConfig {
        transa: n,
        transb: n,
        m: 2,
        n: 2,
        k: 2,
        alpha: single(1.0),
        lda: 2,
        ldb: 2,
        beta: single(0.0),
        ldc: 2,
    };
    let a = DeviceSlice::<Binary16>::new(0x100, 4);
    let b = DeviceSlice::<Binary16>::new(0x200, 4);
    let mut c = DeviceSlice::<Binary16>::new(0x300, 4);
    let f16_type = cudaDataType_t::CUDA_R_16F;
    assert_eq!(
        blas.gemm_ex(cfg, &a, &b, &mut c).primitive,
        Primitive::GemmEx {
            cfg,
            a_type: f16_type,
            b_type: f16_type,
            c_type: f16_type,
            compute_type: cublasComputeType_t::CUBLAS_COMPUTE_32F,
            algo: cublasGemmAlgo_t::CUBLAS_GEMM_DEFAULT,
        }
    );
    let batch =
        StridedBatchedConfig { gemm: cfg, batch_size: 1, stride_a: 4, stride_b: 4, stride_c: 4 };
    assert_eq!(
        blas.gemm_strided_batched_ex(batch, &a, &b, &mut c).primitive,
        Primitive::GemmStridedBatchedEx {
            cfg: batch,
            a_type: f16_type,
            b_type: f16_type,
            c_type: f16_type,
            compute_type: cublasComputeType_t::CUBLAS_COMPUTE_32F,
            algo: cublasGemmAlgo_t::CUBLAS_GEMM_DEFAULT,
        }
    );
}

#[test]
fn batch_of_one_equals_gemm_bit_for_bit() {
    let mut ctx = Device::new(0);
    let blas = ctx.create(CudaBlas::new(ctx.default_stream())).unwrap();
    let a_host: Vec<f32> = (0..12).map(|i| 0.37 * i as f32 - 1.9).collect();
    let b_host: Vec<f32> = (0..20).map(|i| 1.3 - 0.21 * i as f32).collect();
    let a_dev = ctx.memcpy_stod(&a_host);
    let b_dev = ctx.memcpy_stod(&b_host);
    let mut plain_dev = ctx.alloc_zeros::<Binary32>(15);
    let mut batch_dev = ctx.alloc_zeros::<Binary32>(15);
    let cfg = GemmConfig {
        transa: cublasOperation_t::CUBLAS_OP_N,
        transb: cublasOperation_t::CUBLAS_OP_N,
        m: 5,
        n: 3,
        k: 4,
        alpha: single(1.0),
        lda: 5,
        ldb: 4,
        beta: single(0.0),
        ldc: 5,
    };
    let plain = blas.gemm(cfg, &b_dev, &a_dev, &mut plain_dev);
    ctx.run(&plain).unwrap();
    let batch = blas.gemm_strided_batched(
        StridedBatchedConfig { gemm: cfg, batch_size: 1, stride_a: 20, stride_b: 12, stride_c: 15 },
        &b_dev,
        &a_dev,
        &mut batch_dev,
    );
    ctx.run(&batch).unwrap();
    assert_eq!(batch.handle, plain.handle);
    assert_eq!(batch.a, plain.a);
    assert_eq!(batch.b, plain.b);
    let plain_host = ctx.memcpy_dtov(&plain_dev);
    let batch_host = ctx.memcpy_dtov(&batch_dev);
    for i in 0..15 {
        assert_eq!(plain_host[i].to_bits(), batch_host[i].to_bits());
    }
    assert!(plain_host.iter().any(|v| *v != 0.0));
}

#[test]
fn batch_repeats_the_product_one_stride_apart() {
    let mut ctx = Device::new(0);
    let blas = ctx.create(CudaBlas::new(ctx.default_stream())).unwrap();
    // Two products of 2 by 2 matrices, stored one after the other.
    let a_dev = ctx.memcpy_stod_f64(&[1.0, 0.0, 0.0, 1.0, 2.0, 0.0, 0.0, 2.0]);
    let b_dev = ctx.memcpy_stod_f64(&[1.0, 2.0, 3.0, 4.0, 5.0, 6.0, 7.0, 8.0]);
    let mut c_dev = ctx.alloc_zeros::<Binary64>(8);
    let cfg = StridedBatchedConfig {
        gemm: GemmConfig {
            transa: cublasOperation_t::CUBLAS_OP_N,
            transb: cublasOperation_t::CUBLAS_OP_N,
            m: 2,
            n: 2,
            k: 2,
            alpha: double(1.0),
            lda: 2,
            ldb: 2,
            beta: double(0.0),
            ldc: 2,
        },
        batch_size: 2,
        stride_a: 4,
        stride_b: 4,
        stride_c: 4,
    };
    let dispatch = blas.gemm_strided_batched(cfg, &a_dev, &b_dev, &mut c_dev);
    ctx.run(&dispatch).unwrap();
    assert_eq!(
        ctx.memcpy_dtov_f64(&c_dev),
        vec![1.0, 2.0, 3.0, 4.0, 10.0, 12.0, 14.0, 16.0]
    );
}

#[test]
fn dependent_dispatches_on_one_stream_compose() {
    let mut ctx = Device::new(0);
    let stream = ctx.new_stream(0x11);
    let blas = ctx.create(CudaBlas::new(stream)).unwrap();
    // y = A * x, then z = B * y, with nothing in between.
    let a_dev = ctx.memcpy_stod(&[1.0, 3.0, 2.0, 4.0]);
    let b_dev = ctx.memcpy_stod(&[0.0, 1.0, 1.0, 0.0]);
    let x_dev = ctx.memcpy_stod(&[1.0, -1.0]);
    let mut y_dev = ctx.alloc_zeros::<Binary32>(2);
    let mut z_dev = ctx.alloc_zeros::<Binary32>(2);
    let cfg = GemvConfig {
        trans: cublasOperation_t::CUBLAS_OP_N,
        m: 2,
        n: 2,
        alpha: single(1.0),
        lda: 2,
        incx: 1,
        beta: single(0.0),
        incy: 1,
    };
    let first = blas.gemv(cfg, &a_dev, &x_dev, &mut y_dev);
    let second = blas.gemv(cfg, &b_dev, &y_dev, &mut z_dev);
    // The second reads, on the same stream, what the first writes: the
    // stream's own order is all the ordering there is.
    assert_eq!(second.b.address, first.c.address);
    assert_eq!(second.b.stream, first.c.stream);
    assert_eq!(first.c.access, Access::Write);
    assert_eq!(second.b.access, Access::Read);
    assert_eq!(second.b.after, None);
    assert_eq!(y_dev.producer(), Some(0x11));
    ctx.run(&first).unwrap();
    ctx.run(&second).unwrap();
    assert!(ctx.waits.is_empty());
    assert_eq!(ctx.enqueued.len(), 2);
    assert_eq!(ctx.enqueued[0], (0x11, first.primitive));
    assert_eq!(ctx.enqueued[1], (0x11, second.primitive));
    // A = [1 2; 3 4], x = (1, -1): y = (-1, -1). B swaps: z = (-1, -1).
    assert_eq!(ctx.memcpy_dtov(&y_dev), vec![-1.0, -1.0]);
    assert_eq!(ctx.memcpy_dtov(&z_dev), vec![-1.0, -1.0]);

    // With another vector the swap shows.
    let x_dev = ctx.memcpy_stod(&[1.0, 0.0]);
    let first = blas.gemv(cfg, &a_dev, &x_dev, &mut y_dev);
    let second = blas.gemv(cfg, &b_dev, &y_dev, &mut z_dev);
    ctx.run(&first).unwrap();
    ctx.run(&second).unwrap();
    assert_eq!(ctx.memcpy_dtov(&y_dev), vec![1.0, 3.0]);
    assert_eq!(ctx.memcpy_dtov(&z_dev), vec![3.0, 1.0]);
}

#[test]
fn dependent_dispatches_on_two_streams_are_ordered_by_the_capture() {
    let mut ctx = Device::new(0);
    let producer = ctx.create(CudaBlas::new(ctx.new_stream(0x11))).unwrap();
    let consumer = ctx.create(CudaBlas::new(ctx.new_stream(0x22))).unwrap();
    let a_dev = ctx.memcpy_stod(&[1.0, 3.0, 2.0, 4.0]);
    let x_dev = ctx.memcpy_stod(&[1.0, 0.0]);
    let mut y_dev = ctx.alloc_zeros::<Binary32>(2);
    let mut z_dev = ctx.alloc_zeros::<Binary32>(2);
    let cfg = GemvConfig {
        trans: cublasOperation_t::CUBLAS_OP_N,
        m: 2,
        n: 2,
        alpha: single(1.0),
        lda: 2,
        incx: 1,
        beta: single(0.0),
        incy: 1,
    };
    let first = producer.gemv(cfg, &a_dev, &x_dev, &mut y_dev);
    assert_eq!(first.c.after, None);
    assert_eq!(y_dev.producer(), Some(0x11));
    let second = consumer.gemv(cfg, &a_dev, &y_dev, &mut z_dev);
    // The consumer's stream is told to wait for the producer's.
    assert_eq!(second.a.after, None);
    assert_eq!(second.b.after, Some(0x11));
    assert_eq!(second.c.after, None);
    assert_eq!(z_dev.producer(), Some(0x22));
    ctx.run(&first).unwrap();
    ctx.run(&second).unwrap();
    assert_eq!(ctx.waits, vec![(0x22, 0x11)]);
    assert_eq!(ctx.memcpy_dtov(&z_dev), vec![7.0, 15.0]);

    // Written again by the producer, the output of the consumer is waited for.
    let third = producer.gemv(cfg, &a_dev, &x_dev, &mut z_dev);
    assert_eq!(third.c.after, Some(0x22));
    assert_eq!(z_dev.producer(), Some(0x11));

    // A buffer that is known to have been written on a stream says so.
    let uploaded = DeviceSlice::<Binary32>::written_on(0x9000, 4, &CudaStream::new(0, 0x33));
    assert_eq!(uploaded.producer(), Some(0x33));
    assert_eq!(uploaded.device_ptr(&CudaStream::new(0, 0x33)).after, None);
    assert_eq!(uploaded.device_ptr(&CudaStream::new(0, 0x11)).after, Some(0x33));
}

#[test]
fn failure_of_the_primitive_is_a_compute_error() {
    let mut ctx = Device::new(0);
    let blas = ctx.create(CudaBlas::new(ctx.default_stream())).unwrap();
    let a_dev = ctx.memcpy_stod(&[1.0, 2.0, 3.0, 4.0]);
    let x_dev = ctx.memcpy_stod(&[1.0, 1.0]);
    let mut y_dev = ctx.alloc_zeros::<Binary32>(2);
    // A negative dimension addresses nothing; the library rejects it.
    let cfg = GemvConfig {
        trans: cublasOperation_t::CUBLAS_OP_N,
        m: -1,
        n: 2,
        alpha: single(1.0),
        lda: 2,
        incx: 1,
        beta: single(0.0),
        incy: 1,
    };
    let dispatch = blas.try_gemv(cfg, &a_dev, &x_dev, &mut y_dev).unwrap();
    assert_eq!(
        ctx.run(&dispatch),
        Err(CublasError::Compute(cublasStatus_t::CUBLAS_STATUS_INVALID_VALUE))
    );
    let error = ctx.run(&dispatch).unwrap_err();
    assert_eq!(error.stage(), cudarc::cublas::result::Stage::Compute);
    assert_eq!(dispatch.complete(cublasStatus_t::CUBLAS_STATUS_SUCCESS), Ok(()));
    assert_eq!(
        dispatch.complete(cublasStatus_t::CUBLAS_STATUS_EXECUTION_FAILED),
        Err(CublasError::Compute(cublasStatus_t::CUBLAS_STATUS_EXECUTION_FAILED))
    );
}

#[test]
fn try_gemv_refuses_what_gemv_must_not_be_given() {
    let mut ctx = Device::new(0);
    let mut blas = ctx.create(CudaBlas::new(ctx.default_stream())).unwrap();
    let a = DeviceSlice::<Binary32>::new(0x100, 10);
    let x = DeviceSlice::<Binary32>::new(0x200, 5);
    let mut y = DeviceSlice::<Binary32>::new(0x300, 2);
    let cfg = GemvConfig {
        trans: cublasOperation_t::CUBLAS_OP_T,
        m: 5,
        n: 2,
        alpha: single(1.0),
        lda: 5,
        incx: 1,
        beta: single(0.0),
        incy: 1,
    };
    let expected = blas.gemv(cfg, &a, &x, &mut y);
    assert_eq!(blas.try_gemv(cfg, &a, &x, &mut y), Ok(expected));

    let short_a = DeviceSlice::<Binary32>::new(0x100, 9);
    assert_eq!(
        blas.try_gemv(cfg, &short_a, &x, &mut y),
        Err(DispatchError::Overrun(Operand::A))
    );
    let short_x = DeviceSlice::<Binary32>::new(0x200, 4);
    assert_eq!(
        blas.try_gemv(cfg, &a, &short_x, &mut y),
        Err(DispatchError::Overrun(Operand::B))
    );
    let mut short_y = DeviceSlice::<Binary32>::new(0x300, 1);
    assert_eq!(
        blas.try_gemv(cfg, &a, &x, &mut short_y),
        Err(DispatchError::Overrun(Operand::C))
    );
    // The first operand that is overrun is the one that is named.
    assert_eq!(
        blas.try_gemv(cfg, &short_a, &short_x, &mut short_y),
        Err(DispatchError::Overrun(Operand::A))
    );

    assert_eq!(
        blas.pointer_mode_set(
            cublasPointerMode_t::CUBLAS_POINTER_MODE_DEVICE,
            cublasStatus_t::CUBLAS_STATUS_SUCCESS
        ),
        Ok(())
    );
    assert_eq!(blas.try_gemv(cfg, &a, &x, &mut y), Err(DispatchError::DeviceScalars));
    assert_eq!(blas.try_gemv(cfg, &short_a, &x, &mut y), Err(DispatchError::DeviceScalars));
    assert_eq!(blas.screen(Ok(())), Err(DispatchError::DeviceScalars));

    blas.teardown();
    assert_eq!(blas.try_gemv(cfg, &a, &x, &mut y), Err(DispatchError::Released));
    assert_eq!(blas.screen(Err(Operand::B)), Err(DispatchError::Released));
}

#[test]
fn try_gemm_checks_every_operand() {
    let mut ctx = Device::new(0);
    let blas = ctx.create(CudaBlas::new(ctx.default_stream())).unwrap();
    let cfg = GemmConfig {
        transa: cublasOperation_t::CUBLAS_OP_N,
        transb: cublasOperation_t::CUBLAS_OP_N,
        m: 5,
        n: 3,
        k: 4,
        alpha: single(1.0),
        lda: 5,
        ldb: 4,
        beta: single(0.0),
        ldc: 5,
    };
    let a = DeviceSlice::<Binary32>::new(0x100, 20);
    let b = DeviceSlice::<Binary32>::new(0x200, 12);
    let mut c = DeviceSlice::<Binary32>::new(0x300, 15);
    let expected = blas.gemm(cfg, &a, &b, &mut c);
    assert_eq!(blas.try_gemm(cfg, &a, &b, &mut c), Ok(expected));
    assert_eq!(blas.try_gemm_ex(cfg, &a, &b, &mut c), Ok(blas.gemm_ex(cfg, &a, &b, &mut c)));
    let short_b = DeviceSlice::<Binary32>::new(0x200, 11);
    assert_eq!(
        blas.try_gemm(cfg, &a, &short_b, &mut c),
        Err(DispatchError::Overrun(Operand::B))
    );
    assert_eq!(
        blas.try_gemm_ex(cfg, &a, &short_b, &mut c),
        Err(DispatchError::Overrun(Operand::B))
    );

    // Three repetitions, each one product further on.
    let batch =
        StridedBatchedConfig { gemm: cfg, batch_size: 3, stride_a: 20, stride_b: 12, stride_c: 15 };
    let a = DeviceSlice::<Binary32>::new(0x100, 60);
    let b = DeviceSlice::<Binary32>::new(0x200, 36);
    let mut c = DeviceSlice::<Binary32>::new(0x300, 45);
    let expected = blas.gemm_strided_batched(batch, &a, &b, &mut c);
    assert_eq!(blas.try_gemm_strided_batched(batch, &a, &b, &mut c), Ok(expected));
    assert_eq!(
        blas.try_gemm_strided_batched_ex(batch, &a, &b, &mut c),
        Ok(blas.gemm_strided_batched_ex(batch, &a, &b, &mut c))
    );
    let mut short_c = DeviceSlice::<Binary32>::new(0x300, 44);
    assert_eq!(
        blas.try_gemm_strided_batched(batch, &a, &b, &mut short_c),
        Err(DispatchError::Overrun(Operand::C))
    );
    assert_eq!(
        blas.try_gemm_strided_batched_ex(batch, &a, &b, &mut short_c),
        Err(DispatchError::Overrun(Operand::C))
    );
    // The buffers of the plain product hold one repetition, not three.
    let a = DeviceSlice::<Binary32>::new(0x100, 20);
    assert_eq!(
        blas.try_gemm_strided_batched(batch, &a, &b, &mut c),
        Err(DispatchError::Overrun(Operand::A))
    );
}
