//! Dense linear algebra: the vendor's vocabulary, its error mapping, the
//! extents that a shape addresses, and the verified context and dispatch
//! layer on top of them.

pub mod construction;
pub mod laws;
pub mod primitive;
pub mod result;
pub mod safe;
pub mod shape;
pub mod sys;
