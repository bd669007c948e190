//! Verified core of a bridge between Rust futures and KJ promises.
//!
//! The foreign-function glue (raw pointers, pinning, wakers, C++ symbols, token streams) lives
//! outside this crate; what stands here are the decisions that glue makes, each with a
//! contract:
//! - `exception`: the Rust view of a C++ exception;
//! - `result`: how a C++ exception message crosses into Rust;
//! - `future`: what a poll of a Rust future reports to C++;
//! - `promise`: what polling a future that awaits a KJ promise does next;
//! - `namespace` and `expand`: the checks and names of the `#[bridge_future]` attribute.

pub mod exception;
pub mod expand;
pub mod future;
pub mod namespace;
pub mod promise;
pub mod result;
