//! Boot-and-runtime-services core for a multi-core machine, modeled as a
//! single boot coordinator value.
//!
//! The library covers the earliest-executed layer of a bare-metal target:
//! the boot barrier that lets the primary core perform one-time setup while
//! every other core waits, the bootstrap of the global dynamic-memory
//! allocator over a fixed-size arena, and the fatal-error and shutdown paths
//! that are the only ways the system terminates.

mod heap;
mod hexfmt;
pub mod runtime;

pub use hexfmt::hex_string;
pub use runtime::BootStep;
pub use runtime::Runtime;
