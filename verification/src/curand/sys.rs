//! The vocabulary of the vendor's random-number interface, as plain values.
//!
//! The foreign interface numbers its enumerations, and the numbers are what
//! crosses the boundary. Here each enumeration is an ordinary `enum`, declared
//! in the order of its numbers, with `code` and `from_code` to go from a
//! variant to its number and back. The two are proved to be inverse to each
//! other: see [`lemma_codes_round_trip`].

use vstd::prelude::*;

verus! {

/// The version of the toolkit whose interface this is.
pub const CUDA_VERSION: u32 = 12030;

/// An execution stream, as the vendor's interface names it. It has no
/// contents here: it is only ever pointed to.
#[derive(Debug, Copy, Clone)]
pub struct CUstream_st {
    _unused: [u8; 0],
}

/// A generator. It has no contents here: it is only ever pointed to.
#[derive(Debug, Copy, Clone)]
pub struct curandGenerator_st {
    _unused: [u8; 0],
}

/// A shifted distribution. It has no contents here: it is only ever pointed
/// to.
#[derive(Debug, Copy, Clone)]
pub struct curandDistributionShift_st {
    _unused: [u8; 0],
}

/// A shifted distribution of the second sampling method. It has no contents
/// here: it is only ever pointed to.
#[derive(Debug, Copy, Clone)]
pub struct curandDistributionM2Shift_st {
    _unused: [u8; 0],
}

/// A histogram of the second sampling method. It has no contents here: it is
/// only ever pointed to.
#[derive(Debug, Copy, Clone)]
pub struct curandHistogramM2_st {
    _unused: [u8; 0],
}

/// A discrete distribution. It has no contents here: it is only ever pointed
/// to.
#[derive(Debug, Copy, Clone)]
pub struct curandDiscreteDistribution_st {
    _unused: [u8; 0],
}

/// Which part of a library's version a property query asks for.
#[derive(Debug, Copy, Clone, Hash, PartialOrd, Ord, PartialEq, Eq, Structural)]
pub enum libraryPropertyType_t {
    MAJOR_VERSION,
    MINOR_VERSION,
    PATCH_LEVEL,
}

impl libraryPropertyType_t {
    /// The number that the foreign interface gives this variant.
    pub open spec fn code_spec(self) -> u32 {
        match self {
            libraryPropertyType_t::MAJOR_VERSION => 0,
            libraryPropertyType_t::MINOR_VERSION => 1,
            libraryPropertyType_t::PATCH_LEVEL => 2,
        }
    }

    /// The number that the foreign interface gives this variant.
    #[verifier::when_used_as_spec(code_spec)]
    pub fn code(self) -> (code: u32)
        ensures
            code == self.code_spec(),
    {
        match self {
            libraryPropertyType_t::MAJOR_VERSION => 0,
            libraryPropertyType_t::MINOR_VERSION => 1,
            libraryPropertyType_t::PATCH_LEVEL => 2,
        }
    }

    /// The variant with the given number, if there is one.
    pub fn from_code(code: u32) -> (property: Option<Self>)
        ensures
            match property {
                Some(found) => found.code_spec() == code,
                None => forall|other: libraryPropertyType_t| #[trigger] other.code_spec() != code,
            },
    {
        match code {
            0 => Some(libraryPropertyType_t::MAJOR_VERSION),
            1 => Some(libraryPropertyType_t::MINOR_VERSION),
            2 => Some(libraryPropertyType_t::PATCH_LEVEL),
            _ => None,
        }
    }
}

/// The status that every call into the generator library returns.
#[derive(Debug, Copy, Clone, Hash, PartialOrd, Ord, PartialEq, Eq, Structural)]
pub enum curandStatus {
    CURAND_STATUS_SUCCESS,
    CURAND_STATUS_VERSION_MISMATCH,
    CURAND_STATUS_NOT_INITIALIZED,
    CURAND_STATUS_ALLOCATION_FAILED,
    CURAND_STATUS_TYPE_ERROR,
    CURAND_STATUS_OUT_OF_RANGE,
    CURAND_STATUS_LENGTH_NOT_MULTIPLE,
    CURAND_STATUS_DOUBLE_PRECISION_REQUIRED,
    CURAND_STATUS_LAUNCH_FAILURE,
    CURAND_STATUS_PREEXISTING_FAILURE,
    CURAND_STATUS_INITIALIZATION_FAILED,
    CURAND_STATUS_ARCH_MISMATCH,
    CURAND_STATUS_INTERNAL_ERROR,
}

impl curandStatus {
    /// The number that the foreign interface gives this variant.
    pub open spec fn code_spec(self) -> u32 {
        match self {
            curandStatus::CURAND_STATUS_SUCCESS => 0,
            curandStatus::CURAND_STATUS_VERSION_MISMATCH => 100,
            curandStatus::CURAND_STATUS_NOT_INITIALIZED => 101,
            curandStatus::CURAND_STATUS_ALLOCATION_FAILED => 102,
            curandStatus::CURAND_STATUS_TYPE_ERROR => 103,
            curandStatus::CURAND_STATUS_OUT_OF_RANGE => 104,
            curandStatus::CURAND_STATUS_LENGTH_NOT_MULTIPLE => 105,
            curandStatus::CURAND_STATUS_DOUBLE_PRECISION_REQUIRED => 106,
            curandStatus::CURAND_STATUS_LAUNCH_FAILURE => 201,
            curandStatus::CURAND_STATUS_PREEXISTING_FAILURE => 202,
            curandStatus::CURAND_STATUS_INITIALIZATION_FAILED => 203,
            curandStatus::CURAND_STATUS_ARCH_MISMATCH => 204,
            curandStatus::CURAND_STATUS_INTERNAL_ERROR => 999,
        }
    }

    /// The number that the foreign interface gives this variant.
    #[verifier::when_used_as_spec(code_spec)]
    pub fn code(self) -> (code: u32)
        ensures
            code == self.code_spec(),
    {
        match self {
            curandStatus::CURAND_STATUS_SUCCESS => 0,
            curandStatus::CURAND_STATUS_VERSION_MISMATCH => 100,
            curandStatus::CURAND_STATUS_NOT_INITIALIZED => 101,
            curandStatus::CURAND_STATUS_ALLOCATION_FAILED => 102,
            curandStatus::CURAND_STATUS_TYPE_ERROR => 103,
            curandStatus::CURAND_STATUS_OUT_OF_RANGE => 104,
            curandStatus::CURAND_STATUS_LENGTH_NOT_MULTIPLE => 105,
            curandStatus::CURAND_STATUS_DOUBLE_PRECISION_REQUIRED => 106,
            curandStatus::CURAND_STATUS_LAUNCH_FAILURE => 201,
            curandStatus::CURAND_STATUS_PREEXISTING_FAILURE => 202,
            curandStatus::CURAND_STATUS_INITIALIZATION_FAILED => 203,
            curandStatus::CURAND_STATUS_ARCH_MISMATCH => 204,
            curandStatus::CURAND_STATUS_INTERNAL_ERROR => 999,
        }
    }

    /// The variant with the given number, if there is one.
    pub fn from_code(code: u32) -> (status: Option<Self>)
        ensures
            match status {
                Some(found) => found.code_spec() == code,
                None => forall|other: curandStatus| #[trigger] other.code_spec() != code,
            },
    {
        match code {
            0 => Some(curandStatus::CURAND_STATUS_SUCCESS),
            100 => Some(curandStatus::CURAND_STATUS_VERSION_MISMATCH),
            101 => Some(curandStatus::CURAND_STATUS_NOT_INITIALIZED),
            102 => Some(curandStatus::CURAND_STATUS_ALLOCATION_FAILED),
            103 => Some(curandStatus::CURAND_STATUS_TYPE_ERROR),
            104 => Some(curandStatus::CURAND_STATUS_OUT_OF_RANGE),
            105 => Some(curandStatus::CURAND_STATUS_LENGTH_NOT_MULTIPLE),
            106 => Some(curandStatus::CURAND_STATUS_DOUBLE_PRECISION_REQUIRED),
            201 => Some(curandStatus::CURAND_STATUS_LAUNCH_FAILURE),
            202 => Some(curandStatus::CURAND_STATUS_PREEXISTING_FAILURE),
            203 => Some(curandStatus::CURAND_STATUS_INITIALIZATION_FAILED),
            204 => Some(curandStatus::CURAND_STATUS_ARCH_MISMATCH),
            999 => Some(curandStatus::CURAND_STATUS_INTERNAL_ERROR),
            _ => None,
        }
    }
}

/// The kind of generator: pseudo-random or quasi-random, and its algorithm.
#[derive(Debug, Copy, Clone, Hash, PartialOrd, Ord, PartialEq, Eq, Structural)]
pub enum curandRngType {
    CURAND_RNG_TEST,
    CURAND_RNG_PSEUDO_DEFAULT,
    CURAND_RNG_PSEUDO_XORWOW,
    CURAND_RNG_PSEUDO_MRG32K3A,
    CURAND_RNG_PSEUDO_MTGP32,
    CURAND_RNG_PSEUDO_MT19937,
    CURAND_RNG_PSEUDO_PHILOX4_32_10,
    CURAND_RNG_QUASI_DEFAULT,
    CURAND_RNG_QUASI_SOBOL32,
    CURAND_RNG_QUASI_SCRAMBLED_SOBOL32,
    CURAND_RNG_QUASI_SOBOL64,
    CURAND_RNG_QUASI_SCRAMBLED_SOBOL64,
}

impl curandRngType {
    /// The number that the foreign interface gives this variant.
    pub open spec fn code_spec(self) -> u32 {
        match self {
            curandRngType::CURAND_RNG_TEST => 0,
            curandRngType::CURAND_RNG_PSEUDO_DEFAULT => 100,
            curandRngType::CURAND_RNG_PSEUDO_XORWOW => 101,
            curandRngType::CURAND_RNG_PSEUDO_MRG32K3A => 121,
            curandRngType::CURAND_RNG_PSEUDO_MTGP32 => 141,
            curandRngType::CURAND_RNG_PSEUDO_MT19937 => 142,
            curandRngType::CURAND_RNG_PSEUDO_PHILOX4_32_10 => 161,
            curandRngType::CURAND_RNG_QUASI_DEFAULT => 200,
            curandRngType::CURAND_RNG_QUASI_SOBOL32 => 201,
            curandRngType::CURAND_RNG_QUASI_SCRAMBLED_SOBOL32 => 202,
            curandRngType::CURAND_RNG_QUASI_SOBOL64 => 203,
            curandRngType::CURAND_RNG_QUASI_SCRAMBLED_SOBOL64 => 204,
        }
    }

    /// The number that the foreign interface gives this variant.
    #[verifier::when_used_as_spec(code_spec)]
    pub fn code(self) -> (code: u32)
        ensures
            code == self.code_spec(),
    {
        match self {
            curandRngType::CURAND_RNG_TEST => 0,
            curandRngType::CURAND_RNG_PSEUDO_DEFAULT => 100,
            curandRngType::CURAND_RNG_PSEUDO_XORWOW => 101,
            curandRngType::CURAND_RNG_PSEUDO_MRG32K3A => 121,
            curandRngType::CURAND_RNG_PSEUDO_MTGP32 => 141,
            curandRngType::CURAND_RNG_PSEUDO_MT19937 => 142,
            curandRngType::CURAND_RNG_PSEUDO_PHILOX4_32_10 => 161,
            curandRngType::CURAND_RNG_QUASI_DEFAULT => 200,
            curandRngType::CURAND_RNG_QUASI_SOBOL32 => 201,
            curandRngType::CURAND_RNG_QUASI_SCRAMBLED_SOBOL32 => 202,
            curandRngType::CURAND_RNG_QUASI_SOBOL64 => 203,
            curandRngType::CURAND_RNG_QUASI_SCRAMBLED_SOBOL64 => 204,
        }
    }

    /// The variant with the given number, if there is one.
    pub fn from_code(code: u32) -> (kind: Option<Self>)
        ensures
            match kind {
                Some(found) => found.code_spec() == code,
                None => forall|other: curandRngType| #[trigger] other.code_spec() != code,
            },
    {
        match code {
            0 => Some(curandRngType::CURAND_RNG_TEST),
            100 => Some(curandRngType::CURAND_RNG_PSEUDO_DEFAULT),
            101 => Some(curandRngType::CURAND_RNG_PSEUDO_XORWOW),
            121 => Some(curandRngType::CURAND_RNG_PSEUDO_MRG32K3A),
            141 => Some(curandRngType::CURAND_RNG_PSEUDO_MTGP32),
            142 => Some(curandRngType::CURAND_RNG_PSEUDO_MT19937),
            161 => Some(curandRngType::CURAND_RNG_PSEUDO_PHILOX4_32_10),
            200 => Some(curandRngType::CURAND_RNG_QUASI_DEFAULT),
            201 => Some(curandRngType::CURAND_RNG_QUASI_SOBOL32),
            202 => Some(curandRngType::CURAND_RNG_QUASI_SCRAMBLED_SOBOL32),
            203 => Some(curandRngType::CURAND_RNG_QUASI_SOBOL64),
            204 => Some(curandRngType::CURAND_RNG_QUASI_SCRAMBLED_SOBOL64),
            _ => None,
        }
    }
}

/// How the results of a generator are laid out in memory.
#[derive(Debug, Copy, Clone, Hash, PartialOrd, Ord, PartialEq, Eq, Structural)]
pub enum curandOrdering {
    CURAND_ORDERING_PSEUDO_BEST,
    CURAND_ORDERING_PSEUDO_DEFAULT,
    CURAND_ORDERING_PSEUDO_SEEDED,
    CURAND_ORDERING_PSEUDO_LEGACY,
    CURAND_ORDERING_PSEUDO_DYNAMIC,
    CURAND_ORDERING_QUASI_DEFAULT,
}

impl curandOrdering {
    /// The number that the foreign interface gives this variant.
    pub open spec fn code_spec(self) -> u32 {
        match self {
            curandOrdering::CURAND_ORDERING_PSEUDO_BEST => 100,
            curandOrdering::CURAND_ORDERING_PSEUDO_DEFAULT => 101,
            curandOrdering::CURAND_ORDERING_PSEUDO_SEEDED => 102,
            curandOrdering::CURAND_ORDERING_PSEUDO_LEGACY => 103,
            curandOrdering::CURAND_ORDERING_PSEUDO_DYNAMIC => 104,
            curandOrdering::CURAND_ORDERING_QUASI_DEFAULT => 201,
        }
    }

    /// The number that the foreign interface gives this variant.
    #[verifier::when_used_as_spec(code_spec)]
    pub fn code(self) -> (code: u32)
        ensures
            code == self.code_spec(),
    {
        match self {
            curandOrdering::CURAND_ORDERING_PSEUDO_BEST => 100,
            curandOrdering::CURAND_ORDERING_PSEUDO_DEFAULT => 101,
            curandOrdering::CURAND_ORDERING_PSEUDO_SEEDED => 102,
            curandOrdering::CURAND_ORDERING_PSEUDO_LEGACY => 103,
            curandOrdering::CURAND_ORDERING_PSEUDO_DYNAMIC => 104,
            curandOrdering::CURAND_ORDERING_QUASI_DEFAULT => 201,
        }
    }

    /// The variant with the given number, if there is one.
    pub fn from_code(code: u32) -> (ordering: Option<Self>)
        ensures
            match ordering {
                Some(found) => found.code_spec() == code,
                None => forall|other: curandOrdering| #[trigger] other.code_spec() != code,
            },
    {
        match code {
            100 => Some(curandOrdering::CURAND_ORDERING_PSEUDO_BEST),
            101 => Some(curandOrdering::CURAND_ORDERING_PSEUDO_DEFAULT),
            102 => Some(curandOrdering::CURAND_ORDERING_PSEUDO_SEEDED),
            103 => Some(curandOrdering::CURAND_ORDERING_PSEUDO_LEGACY),
            104 => Some(curandOrdering::CURAND_ORDERING_PSEUDO_DYNAMIC),
            201 => Some(curandOrdering::CURAND_ORDERING_QUASI_DEFAULT),
            _ => None,
        }
    }
}

/// A set of direction vectors for quasi-random generators.
#[derive(Debug, Copy, Clone, Hash, PartialOrd, Ord, PartialEq, Eq, Structural)]
pub enum curandDirectionVectorSet {
    CURAND_DIRECTION_VECTORS_32_JOEKUO6,
    CURAND_SCRAMBLED_DIRECTION_VECTORS_32_JOEKUO6,
    CURAND_DIRECTION_VECTORS_64_JOEKUO6,
    CURAND_SCRAMBLED_DIRECTION_VECTORS_64_JOEKUO6,
}

impl curandDirectionVectorSet {
    /// The number that the foreign interface gives this variant.
    pub open spec fn code_spec(self) -> u32 {
        match self {
            curandDirectionVectorSet::CURAND_DIRECTION_VECTORS_32_JOEKUO6 => 101,
            curandDirectionVectorSet::CURAND_SCRAMBLED_DIRECTION_VECTORS_32_JOEKUO6 => 102,
            curandDirectionVectorSet::CURAND_DIRECTION_VECTORS_64_JOEKUO6 => 103,
            curandDirectionVectorSet::CURAND_SCRAMBLED_DIRECTION_VECTORS_64_JOEKUO6 => 104,
        }
    }

    /// The number that the foreign interface gives this variant.
    #[verifier::when_used_as_spec(code_spec)]
    pub fn code(self) -> (code: u32)
        ensures
            code == self.code_spec(),
    {
        match self {
            curandDirectionVectorSet::CURAND_DIRECTION_VECTORS_32_JOEKUO6 => 101,
            curandDirectionVectorSet::CURAND_SCRAMBLED_DIRECTION_VECTORS_32_JOEKUO6 => 102,
            curandDirectionVectorSet::CURAND_DIRECTION_VECTORS_64_JOEKUO6 => 103,
            curandDirectionVectorSet::CURAND_SCRAMBLED_DIRECTION_VECTORS_64_JOEKUO6 => 104,
        }
    }

    /// The variant with the given number, if there is one.
    pub fn from_code(code: u32) -> (set: Option<Self>)
        ensures
            match set {
                Some(found) => found.code_spec() == code,
                None => forall|other: curandDirectionVectorSet| #[trigger] other.code_spec() != code,
            },
    {
        match code {
            101 => Some(curandDirectionVectorSet::CURAND_DIRECTION_VECTORS_32_JOEKUO6),
            102 => Some(curandDirectionVectorSet::CURAND_SCRAMBLED_DIRECTION_VECTORS_32_JOEKUO6),
            103 => Some(curandDirectionVectorSet::CURAND_DIRECTION_VECTORS_64_JOEKUO6),
            104 => Some(curandDirectionVectorSet::CURAND_SCRAMBLED_DIRECTION_VECTORS_64_JOEKUO6),
            _ => None,
        }
    }
}

/// The method by which a distribution is sampled.
#[derive(Debug, Copy, Clone, Hash, PartialOrd, Ord, PartialEq, Eq, Structural)]
pub enum curandMethod {
    CURAND_CHOOSE_BEST,
    CURAND_ITR,
    CURAND_KNUTH,
    CURAND_HITR,
    CURAND_M1,
    CURAND_M2,
    CURAND_BINARY_SEARCH,
    CURAND_DISCRETE_GAUSS,
    CURAND_REJECTION,
    CURAND_DEVICE_API,
    CURAND_FAST_REJECTION,
    CURAND_3RD,
    CURAND_DEFINITION,
    CURAND_POISSON,
}

impl curandMethod {
    /// The number that the foreign interface gives this variant.
    pub open spec fn code_spec(self) -> u32 {
        match self {
            curandMethod::CURAND_CHOOSE_BEST => 0,
            curandMethod::CURAND_ITR => 1,
            curandMethod::CURAND_KNUTH => 2,
            curandMethod::CURAND_HITR => 3,
            curandMethod::CURAND_M1 => 4,
            curandMethod::CURAND_M2 => 5,
            curandMethod::CURAND_BINARY_SEARCH => 6,
            curandMethod::CURAND_DISCRETE_GAUSS => 7,
            curandMethod::CURAND_REJECTION => 8,
            curandMethod::CURAND_DEVICE_API => 9,
            curandMethod::CURAND_FAST_REJECTION => 10,
            curandMethod::CURAND_3RD => 11,
            curandMethod::CURAND_DEFINITION => 12,
            curandMethod::CURAND_POISSON => 13,
        }
    }

    /// The number that the foreign interface gives this variant.
    #[verifier::when_used_as_spec(code_spec)]
    pub fn code(self) -> (code: u32)
        ensures
            code == self.code_spec(),
    {
        match self {
            curandMethod::CURAND_CHOOSE_BEST => 0,
            curandMethod::CURAND_ITR => 1,
            curandMethod::CURAND_KNUTH => 2,
            curandMethod::CURAND_HITR => 3,
            curandMethod::CURAND_M1 => 4,
            curandMethod::CURAND_M2 => 5,
            curandMethod::CURAND_BINARY_SEARCH => 6,
            curandMethod::CURAND_DISCRETE_GAUSS => 7,
            curandMethod::CURAND_REJECTION => 8,
            curandMethod::CURAND_DEVICE_API => 9,
            curandMethod::CURAND_FAST_REJECTION => 10,
            curandMethod::CURAND_3RD => 11,
            curandMethod::CURAND_DEFINITION => 12,
            curandMethod::CURAND_POISSON => 13,
        }
    }

    /// The variant with the given number, if there is one.
    pub fn from_code(code: u32) -> (method: Option<Self>)
        ensures
            match method {
                Some(found) => found.code_spec() == code,
                None => forall|other: curandMethod| #[trigger] other.code_spec() != code,
            },
    {
        match code {
            0 => Some(curandMethod::CURAND_CHOOSE_BEST),
            1 => Some(curandMethod::CURAND_ITR),
            2 => Some(curandMethod::CURAND_KNUTH),
            3 => Some(curandMethod::CURAND_HITR),
            4 => Some(curandMethod::CURAND_M1),
            5 => Some(curandMethod::CURAND_M2),
            6 => Some(curandMethod::CURAND_BINARY_SEARCH),
            7 => Some(curandMethod::CURAND_DISCRETE_GAUSS),
            8 => Some(curandMethod::CURAND_REJECTION),
            9 => Some(curandMethod::CURAND_DEVICE_API),
            10 => Some(curandMethod::CURAND_FAST_REJECTION),
            11 => Some(curandMethod::CURAND_3RD),
            12 => Some(curandMethod::CURAND_DEFINITION),
            13 => Some(curandMethod::CURAND_POISSON),
            _ => None,
        }
    }
}

impl curandStatus {
    /// Whether the call succeeded: the status whose number is zero.
    pub open spec fn is_success_spec(self) -> bool {
        self == curandStatus::CURAND_STATUS_SUCCESS
    }

    /// Whether the call succeeded.
    #[verifier::when_used_as_spec(is_success_spec)]
    pub fn is_success(self) -> (success: bool)
        ensures
            success == self.is_success_spec(),
            success <==> self.code_spec() == 0,
    {
        match self {
            curandStatus::CURAND_STATUS_SUCCESS => true,
            _ => false,
        }
    }
}

/// No two variants of an enumeration share a number, so a variant is known
/// by its number.
pub proof fn lemma_codes_round_trip()
    ensures
        forall|a: libraryPropertyType_t, b: libraryPropertyType_t| #[trigger]
            a.code_spec() == #[trigger] b.code_spec() ==> a == b,
        forall|a: curandStatus, b: curandStatus| #[trigger]
            a.code_spec() == #[trigger] b.code_spec() ==> a == b,
        forall|a: curandRngType, b: curandRngType| #[trigger]
            a.code_spec() == #[trigger] b.code_spec() ==> a == b,
        forall|a: curandOrdering, b: curandOrdering| #[trigger]
            a.code_spec() == #[trigger] b.code_spec() ==> a == b,
        forall|a: curandDirectionVectorSet, b: curandDirectionVectorSet| #[trigger]
            a.code_spec() == #[trigger] b.code_spec() ==> a == b,
        forall|a: curandMethod, b: curandMethod| #[trigger]
            a.code_spec() == #[trigger] b.code_spec() ==> a == b,
{
}

/// The name that the foreign interface also gives [`libraryPropertyType_t`].
pub type libraryPropertyType = libraryPropertyType_t;

/// The name that the foreign interface also gives [`curandStatus`].
pub type curandStatus_t = curandStatus;

/// The name that the foreign interface also gives [`curandRngType`].
pub type curandRngType_t = curandRngType;

/// The name that the foreign interface also gives [`curandOrdering`].
pub type curandOrdering_t = curandOrdering;

/// The name that the foreign interface also gives
/// [`curandDirectionVectorSet`].
pub type curandDirectionVectorSet_t = curandDirectionVectorSet;

/// The name that the foreign interface also gives [`curandMethod`].
pub type curandMethod_t = curandMethod;

/// One set of direction vectors for a generator of 32-bit numbers.
pub type curandDirectionVectors32_t = [u32; 32];

/// One set of direction vectors for a generator of 64-bit numbers.
pub type curandDirectionVectors64_t = [u64; 64];

} // verus!
