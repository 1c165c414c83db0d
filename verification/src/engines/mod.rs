//! The back-end engines: a zero-sized capability tag each, with the vector
//! types it associates to the element kinds.

pub mod avx2;
pub mod scalar;
