//! Listing a protected directory through privilege elevation, with the
//! decisions separated from the processes that carry them out.
//!
//! The crate never starts a process itself. It says which process to start,
//! takes back how the process ended, and decides what the call returns.

pub mod elevation;
pub mod laws;
pub mod lines;
pub mod method;
pub mod model;
pub mod platform;
mod text;

pub use elevation::{ls_with_polkit, ls_with_sudo, Attempt, Step};
pub use lines::split_lines;
pub use method::{ElevationError, Invocation, Listing, LsRootMethod, ProcessOutcome};
pub use platform::{platform, rust_release_mode, BuildTarget, Platform};
