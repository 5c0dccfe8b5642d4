//! Typed references to memoized cells: the resolved reference, its
//! identity-based equality, and the runtime-checked casting protocol.

pub mod ids;
pub mod raw;
pub mod registry;
pub mod vc;
pub mod storage;
pub mod resolved;
pub mod trace;
