//! Scalars and elements as bit patterns.
//!
//! Nothing here computes with the numbers: a coefficient crosses this crate on
//! its way to the accelerator, and the only operation on it is the widening of
//! a bfloat16 coefficient to binary32. So each numeric representation is a
//! struct around the bits of one value.

use crate::cublas::sys::cudaDataType_t;
use vstd::prelude::*;

verus! {

/// One IEEE 754 binary32 value.
#[derive(Clone, Copy, Debug, PartialEq, Eq, Hash, Structural)]
pub struct Binary32 {
    pub bits: u32,
}

/// One IEEE 754 binary64 value.
#[derive(Clone, Copy, Debug, PartialEq, Eq, Hash, Structural)]
pub struct Binary64 {
    pub bits: u64,
}

/// One IEEE 754 binary16 value. Buffers hold it; a product on such buffers
/// takes its coefficients in binary32.
#[derive(Clone, Copy, Debug, PartialEq, Eq, Hash, Structural)]
pub struct Binary16 {
    pub bits: u16,
}

/// One bfloat16 value: the upper half of a binary32 value.
#[derive(Clone, Copy, Debug, PartialEq, Eq, Hash, Structural)]
pub struct BFloat16 {
    pub bits: u16,
}

/// A numeric representation that device buffers can hold.
pub trait Element: Sized {
    /// The storage format that the vendor library names for this
    /// representation.
    spec fn data_type_spec() -> cudaDataType_t;

    /// The storage format that the vendor library names for this
    /// representation.
    fn data_type() -> (data_type: cudaDataType_t)
        ensures
            data_type == Self::data_type_spec(),
    ;
}

impl Element for Binary32 {
    open spec fn data_type_spec() -> cudaDataType_t {
        cudaDataType_t::CUDA_R_32F
    }

    fn data_type() -> (data_type: cudaDataType_t) {
        cudaDataType_t::CUDA_R_32F
    }
}

impl Element for Binary64 {
    open spec fn data_type_spec() -> cudaDataType_t {
        cudaDataType_t::CUDA_R_64F
    }

    fn data_type() -> (data_type: cudaDataType_t) {
        cudaDataType_t::CUDA_R_64F
    }
}

impl Element for Binary16 {
    open spec fn data_type_spec() -> cudaDataType_t {
        cudaDataType_t::CUDA_R_16F
    }

    fn data_type() -> (data_type: cudaDataType_t) {
        cudaDataType_t::CUDA_R_16F
    }
}

impl Element for BFloat16 {
    open spec fn data_type_spec() -> cudaDataType_t {
        cudaDataType_t::CUDA_R_16BF
    }

    fn data_type() -> (data_type: cudaDataType_t) {
        cudaDataType_t::CUDA_R_16BF
    }
}

/// The binary32 bits of the value that the bfloat16 bits `bits` hold.
///
/// A bfloat16 value is the upper sixteen bits of a binary32 value, so widening
/// appends sixteen zero bits. A NaN keeps its payload and is made quiet.
pub open spec fn bfloat16_widened(bits: u16) -> u32 {
    if bits & 0x7FFF > 0x7F80 {
        ((bits as u32) | 0x0040u32) << 16
    } else {
        (bits as u32) << 16
    }
}

/// Calls `half::bf16::to_f32` on the value with the given bits and returns the
/// bits of the result. Trusted: the conversion appends sixteen zero bits, and
/// sets the quiet bit of a NaN.
#[verifier::external_body]
fn bf16_to_f32_bits(bits: u16) -> (wide: u32)
    ensures
        wide == bfloat16_widened(bits),
{
    half::bf16::from_bits(bits).to_f32().to_bits()
}

impl Binary32 {
    /// The value with the given bits.
    pub fn from_bits(bits: u32) -> (value: Self)
        ensures
            value.bits == bits,
    {
        Binary32 { bits }
    }

    /// The bits of the value.
    pub fn to_bits(self) -> (bits: u32)
        ensures
            bits == self.bits,
    {
        self.bits
    }
}

impl Binary64 {
    /// The value with the given bits.
    pub fn from_bits(bits: u64) -> (value: Self)
        ensures
            value.bits == bits,
    {
        Binary64 { bits }
    }

    /// The bits of the value.
    pub fn to_bits(self) -> (bits: u64)
        ensures
            bits == self.bits,
    {
        self.bits
    }
}

impl Binary16 {
    /// The value with the given bits.
    pub fn from_bits(bits: u16) -> (value: Self)
        ensures
            value.bits == bits,
    {
        Binary16 { bits }
    }

    /// The bits of the value.
    pub fn to_bits(self) -> (bits: u16)
        ensures
            bits == self.bits,
    {
        self.bits
    }
}

impl BFloat16 {
    /// The value with the given bits.
    pub fn from_bits(bits: u16) -> (value: Self)
        ensures
            value.bits == bits,
    {
        BFloat16 { bits }
    }

    /// The bits of the value.
    pub fn to_bits(self) -> (bits: u16)
        ensures
            bits == self.bits,
    {
        self.bits
    }

    /// The same number in binary32.
    pub open spec fn widened(self) -> Binary32 {
        Binary32 { bits: bfloat16_widened(self.bits) }
    }

    /// The same number in binary32. Every bfloat16 value has one, so nothing
    /// is lost.
    pub fn to_binary32(self) -> (wide: Binary32)
        ensures
            wide == self.widened(),
    {
        Binary32 { bits: bf16_to_f32_bits(self.bits) }
    }
}

/// Widening keeps the sign, the exponent and the mantissa where they are: the
/// upper half of the result is the bfloat16 value itself, but for the quiet
/// bit of a NaN, and the lower half is zero.
pub proof fn lemma_bfloat16_widened_halves(bits: u16)
    ensures
        bfloat16_widened(bits) & 0xFFFF == 0,
        bits & 0x7FFF <= 0x7F80 ==> bfloat16_widened(bits) >> 16 == bits,
        bits & 0x7FFF > 0x7F80 ==> bfloat16_widened(bits) >> 16 == bits | 0x0040,
{
    assert((((bits as u32) | 0x0040u32) << 16) & 0xFFFF == 0) by (bit_vector);
    assert(((bits as u32) << 16) & 0xFFFF == 0) by (bit_vector);
    assert(((bits as u32) << 16) >> 16 == bits) by (bit_vector);
    assert((((bits as u32) | 0x0040u32) << 16) >> 16 == bits | 0x0040) by (bit_vector);
}

} // verus!
