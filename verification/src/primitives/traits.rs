//! The constraint that every protocol identifier meets.

use vstd::prelude::*;

verus! {

/// What is required of a protocol identifier: it can be copied, compared,
/// hashed, printed and shared between threads. Every type that can is one.
pub trait ProtocolId: std::fmt::Debug + Clone + Copy + PartialEq + Eq + std::hash::Hash + Send + Sync + 'static {

}

impl<T> ProtocolId for T where
    T: std::fmt::Debug + Clone + Copy + PartialEq + Eq + std::hash::Hash + Send + Sync + 'static,
 {

}

} // verus!
