//! Launch a program with chosen Linux capabilities raised into the
//! inheritable and ambient sets of the current process.
//!
//! The crate has two halves. The pure half resolves human-supplied
//! capability names to identifiers and plans the ordered sequence of
//! privilege operations. The effectful half drives the kernel's
//! capability interface and the final process replacement through a
//! small set of trusted wrappers, in the planned order.

pub mod cap;
pub mod plan;
pub mod protocol;
pub mod resolve;

pub use cap::Capability;
pub use protocol::RunError;
pub use protocol::run;
pub use resolve::ResolveError;
pub use resolve::resolve;
