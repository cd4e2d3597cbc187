//! The vocabulary of the vendor's linear-algebra interface, as plain values.
//!
//! The foreign interface numbers its enumerations; here each enumeration is an
//! ordinary `enum` and, where the number matters to callers, a pair of
//! functions maps between the variant and its number.

use vstd::prelude::*;

verus! {

/// The address of the library's per-context state. Address zero is the null
/// handle, which stands for "no handle".
#[derive(Clone, Copy, Debug, PartialEq, Eq, Hash, Structural)]
pub struct cublasHandle_t {
    pub address: usize,
}

impl cublasHandle_t {
    /// Whether this is the null handle.
    pub open spec fn is_null_spec(self) -> bool {
        self.address == 0
    }

    /// The null handle.
    pub fn null() -> (handle: Self)
        ensures
            handle.address == 0,
            handle.is_null_spec(),
    {
        cublasHandle_t { address: 0 }
    }

    /// Whether this is the null handle.
    #[verifier::when_used_as_spec(is_null_spec)]
    pub fn is_null(self) -> (null: bool)
        ensures
            null == self.is_null_spec(),
    {
        self.address == 0
    }
}

/// The status that every call into the vendor library returns.
#[derive(Clone, Copy, Debug, PartialEq, Eq, PartialOrd, Ord, Hash, Structural)]
pub enum cublasStatus_t {
    CUBLAS_STATUS_SUCCESS,
    CUBLAS_STATUS_NOT_INITIALIZED,
    CUBLAS_STATUS_ALLOC_FAILED,
    CUBLAS_STATUS_INVALID_VALUE,
    CUBLAS_STATUS_ARCH_MISMATCH,
    CUBLAS_STATUS_MAPPING_ERROR,
    CUBLAS_STATUS_EXECUTION_FAILED,
    CUBLAS_STATUS_INTERNAL_ERROR,
    CUBLAS_STATUS_NOT_SUPPORTED,
    CUBLAS_STATUS_LICENSE_ERROR,
}

impl cublasStatus_t {
    /// The number that the foreign interface gives this status.
    pub open spec fn code_spec(self) -> u32 {
        match self {
            cublasStatus_t::CUBLAS_STATUS_SUCCESS => 0,
            cublasStatus_t::CUBLAS_STATUS_NOT_INITIALIZED => 1,
            cublasStatus_t::CUBLAS_STATUS_ALLOC_FAILED => 3,
            cublasStatus_t::CUBLAS_STATUS_INVALID_VALUE => 7,
            cublasStatus_t::CUBLAS_STATUS_ARCH_MISMATCH => 8,
            cublasStatus_t::CUBLAS_STATUS_MAPPING_ERROR => 11,
            cublasStatus_t::CUBLAS_STATUS_EXECUTION_FAILED => 13,
            cublasStatus_t::CUBLAS_STATUS_INTERNAL_ERROR => 14,
            cublasStatus_t::CUBLAS_STATUS_NOT_SUPPORTED => 15,
            cublasStatus_t::CUBLAS_STATUS_LICENSE_ERROR => 16,
        }
    }

    /// Whether the call succeeded: the status whose number is zero.
    pub open spec fn is_success_spec(self) -> bool {
        self == cublasStatus_t::CUBLAS_STATUS_SUCCESS
    }

    /// The number that the foreign interface gives this status.
    #[verifier::when_used_as_spec(code_spec)]
    pub fn code(self) -> (code: u32)
        ensures
            code == self.code_spec(),
    {
        match self {
            cublasStatus_t::CUBLAS_STATUS_SUCCESS => 0,
            cublasStatus_t::CUBLAS_STATUS_NOT_INITIALIZED => 1,
            cublasStatus_t::CUBLAS_STATUS_ALLOC_FAILED => 3,
            cublasStatus_t::CUBLAS_STATUS_INVALID_VALUE => 7,
            cublasStatus_t::CUBLAS_STATUS_ARCH_MISMATCH => 8,
            cublasStatus_t::CUBLAS_STATUS_MAPPING_ERROR => 11,
            cublasStatus_t::CUBLAS_STATUS_EXECUTION_FAILED => 13,
            cublasStatus_t::CUBLAS_STATUS_INTERNAL_ERROR => 14,
            cublasStatus_t::CUBLAS_STATUS_NOT_SUPPORTED => 15,
            cublasStatus_t::CUBLAS_STATUS_LICENSE_ERROR => 16,
        }
    }

    /// The status with the given number, if there is one.
    pub fn from_code(code: u32) -> (status: Option<Self>)
        ensures
            match status {
                Some(s) => s.code_spec() == code,
                None => forall|s: cublasStatus_t| #[trigger] s.code_spec() != code,
            },
    {
        match code {
            0 => Some(cublasStatus_t::CUBLAS_STATUS_SUCCESS),
            1 => Some(cublasStatus_t::CUBLAS_STATUS_NOT_INITIALIZED),
            3 => Some(cublasStatus_t::CUBLAS_STATUS_ALLOC_FAILED),
            7 => Some(cublasStatus_t::CUBLAS_STATUS_INVALID_VALUE),
            8 => Some(cublasStatus_t::CUBLAS_STATUS_ARCH_MISMATCH),
            11 => Some(cublasStatus_t::CUBLAS_STATUS_MAPPING_ERROR),
            13 => Some(cublasStatus_t::CUBLAS_STATUS_EXECUTION_FAILED),
            14 => Some(cublasStatus_t::CUBLAS_STATUS_INTERNAL_ERROR),
            15 => Some(cublasStatus_t::CUBLAS_STATUS_NOT_SUPPORTED),
            16 => Some(cublasStatus_t::CUBLAS_STATUS_LICENSE_ERROR),
            _ => None,
        }
    }

    /// Whether the call succeeded.
    #[verifier::when_used_as_spec(is_success_spec)]
    pub fn is_success(self) -> (success: bool)
        ensures
            success == self.is_success_spec(),
            success <==> self.code_spec() == 0,
    {
        match self {
            cublasStatus_t::CUBLAS_STATUS_SUCCESS => true,
            _ => false,
        }
    }
}

/// Whether an operand is used as stored, transposed, or conjugate-transposed.
#[derive(Clone, Copy, Debug, PartialEq, Eq, PartialOrd, Ord, Hash, Structural)]
pub enum cublasOperation_t {
    CUBLAS_OP_N,
    CUBLAS_OP_T,
    CUBLAS_OP_C,
}

impl cublasOperation_t {
    /// Whether the operand is used as stored.
    pub open spec fn is_identity_spec(self) -> bool {
        self == cublasOperation_t::CUBLAS_OP_N
    }

    /// Whether the operand is used as stored.
    #[verifier::when_used_as_spec(is_identity_spec)]
    pub fn is_identity(self) -> (identity: bool)
        ensures
            identity == self.is_identity_spec(),
    {
        match self {
            cublasOperation_t::CUBLAS_OP_N => true,
            _ => false,
        }
    }
}

/// Where the library reads the scalar coefficients from.
#[derive(Clone, Copy, Debug, PartialEq, Eq, PartialOrd, Ord, Hash, Structural)]
pub enum cublasPointerMode_t {
    CUBLAS_POINTER_MODE_HOST,
    CUBLAS_POINTER_MODE_DEVICE,
}

/// The storage format of the elements of an operand.
#[derive(Clone, Copy, Debug, PartialEq, Eq, PartialOrd, Ord, Hash, Structural)]
pub enum cudaDataType_t {
    CUDA_R_32F,
    CUDA_R_64F,
    CUDA_R_16F,
    CUDA_R_16BF,
}

/// The precision in which a multiplication accumulates.
#[derive(Clone, Copy, Debug, PartialEq, Eq, PartialOrd, Ord, Hash, Structural)]
pub enum cublasComputeType_t {
    CUBLAS_COMPUTE_16F,
    CUBLAS_COMPUTE_32F,
    CUBLAS_COMPUTE_64F,
}

/// The algorithm that a mixed-precision multiplication asks for.
#[derive(Clone, Copy, Debug, PartialEq, Eq, PartialOrd, Ord, Hash, Structural)]
pub enum cublasGemmAlgo_t {
    CUBLAS_GEMM_DEFAULT,
    CUBLAS_GEMM_DEFAULT_TENSOR_OP,
}

impl cublasOperation_t {
    /// The number that the foreign interface gives this variant.
    pub open spec fn code_spec(self) -> u32 {
        match self {
            cublasOperation_t::CUBLAS_OP_N => 0,
            cublasOperation_t::CUBLAS_OP_T => 1,
            cublasOperation_t::CUBLAS_OP_C => 2,
        }
    }

    /// The number that the foreign interface gives this variant.
    #[verifier::when_used_as_spec(code_spec)]
    pub fn code(self) -> (code: u32)
        ensures
            code == self.code_spec(),
    {
        match self {
            cublasOperation_t::CUBLAS_OP_N => 0,
            cublasOperation_t::CUBLAS_OP_T => 1,
            cublasOperation_t::CUBLAS_OP_C => 2,
        }
    }
}

impl cublasPointerMode_t {
    /// The number that the foreign interface gives this variant.
    pub open spec fn code_spec(self) -> u32 {
        match self {
            cublasPointerMode_t::CUBLAS_POINTER_MODE_HOST => 0,
            cublasPointerMode_t::CUBLAS_POINTER_MODE_DEVICE => 1,
        }
    }

    /// The number that the foreign interface gives this variant.
    #[verifier::when_used_as_spec(code_spec)]
    pub fn code(self) -> (code: u32)
        ensures
            code == self.code_spec(),
    {
        match self {
            cublasPointerMode_t::CUBLAS_POINTER_MODE_HOST => 0,
            cublasPointerMode_t::CUBLAS_POINTER_MODE_DEVICE => 1,
        }
    }

    /// The variant with the given number, if there is one.
    pub fn from_code(code: u32) -> (mode: Option<Self>)
        ensures
            match mode {
                Some(found) => found.code_spec() == code,
                None => forall|other: cublasPointerMode_t| #[trigger] other.code_spec() != code,
            },
    {
        match code {
            0 => Some(cublasPointerMode_t::CUBLAS_POINTER_MODE_HOST),
            1 => Some(cublasPointerMode_t::CUBLAS_POINTER_MODE_DEVICE),
            _ => None,
        }
    }
}

impl cudaDataType_t {
    /// The number that the foreign interface gives this variant.
    pub open spec fn code_spec(self) -> u32 {
        match self {
            cudaDataType_t::CUDA_R_32F => 0,
            cudaDataType_t::CUDA_R_64F => 1,
            cudaDataType_t::CUDA_R_16F => 2,
            cudaDataType_t::CUDA_R_16BF => 14,
        }
    }

    /// The number that the foreign interface gives this variant.
    #[verifier::when_used_as_spec(code_spec)]
    pub fn code(self) -> (code: u32)
        ensures
            code == self.code_spec(),
    {
        match self {
            cudaDataType_t::CUDA_R_32F => 0,
            cudaDataType_t::CUDA_R_64F => 1,
            cudaDataType_t::CUDA_R_16F => 2,
            cudaDataType_t::CUDA_R_16BF => 14,
        }
    }
}

impl cublasComputeType_t {
    /// The number that the foreign interface gives this variant.
    pub open spec fn code_spec(self) -> u32 {
        match self {
            cublasComputeType_t::CUBLAS_COMPUTE_16F => 64,
            cublasComputeType_t::CUBLAS_COMPUTE_32F => 68,
            cublasComputeType_t::CUBLAS_COMPUTE_64F => 70,
        }
    }

    /// The number that the foreign interface gives this variant.
    #[verifier::when_used_as_spec(code_spec)]
    pub fn code(self) -> (code: u32)
        ensures
            code == self.code_spec(),
    {
        match self {
            cublasComputeType_t::CUBLAS_COMPUTE_16F => 64,
            cublasComputeType_t::CUBLAS_COMPUTE_32F => 68,
            cublasComputeType_t::CUBLAS_COMPUTE_64F => 70,
        }
    }
}

impl cublasGemmAlgo_t {
    /// The number that the foreign interface gives this variant.
    pub open spec fn code_spec(self) -> i32 {
        match self {
            cublasGemmAlgo_t::CUBLAS_GEMM_DEFAULT => -1i32,
            cublasGemmAlgo_t::CUBLAS_GEMM_DEFAULT_TENSOR_OP => 99,
        }
    }

    /// The number that the foreign interface gives this variant.
    #[verifier::when_used_as_spec(code_spec)]
    pub fn code(self) -> (code: i32)
        ensures
            code == self.code_spec(),
    {
        match self {
            cublasGemmAlgo_t::CUBLAS_GEMM_DEFAULT => -1i32,
            cublasGemmAlgo_t::CUBLAS_GEMM_DEFAULT_TENSOR_OP => 99,
        }
    }
}

} // verus!
