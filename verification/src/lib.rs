//! Runtime selection among equivalent compute strategies.
//!
//! Several candidate operations may compute the same result at different speeds.
//! The [`tuner::Tuner`] times every candidate of an operation set once per problem
//! key, remembers the index of the fastest one, and replays that choice on every
//! later call with the same key. The [`numeric`] module holds the element-wise
//! tensor operations, which choose between an in-place and an allocating kernel.

pub mod benchmark;
pub mod client;
pub mod numeric;
pub mod operation;
pub mod tune_cache;
pub mod tuner;
