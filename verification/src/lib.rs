//! A verified safety layer over an accelerator's dense linear-algebra library.
//!
//! The accelerator runs asynchronously and is reached through foreign calls
//! that no proof can follow. This crate holds everything that is decided on
//! the host before and after such a call:
//!
//! - the life of the library handle, from its allocation to its one release
//!   ([`cublas::construction`], [`cublas::safe::CudaBlas`]);
//! - the marshalling of matrix-vector and matrix-matrix products for each
//!   numeric representation ([`cublas::primitive`]);
//! - the order in which device buffers are tied to the execution stream, and
//!   the stream that a dependent call has to wait for ([`driver`]);
//! - the bounds that a shape puts on the buffers it names
//!   ([`cublas::shape`]).
//!
//! Each decision is a function from plain values to plain values with a
//! proved contract. The caller performs the foreign call that a
//! [`cublas::safe::Request`] or a [`cublas::safe::Dispatch`] describes and
//! hands the status back. What holds of the whole is stated and proved in
//! [`cublas::laws`].
#![allow(non_camel_case_types)]
#![allow(non_snake_case)]

pub mod cublas;
pub mod curand;
pub mod driver;
pub mod scalar;
