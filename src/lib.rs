//! Kernel transfer controller: classifies a source locator, decides each step
//! of an acquisition and of the build that may follow it, and drives the
//! repository synchronization workflow. The steps themselves (processes,
//! sockets, files) are performed by the caller, which reports their outcomes.
use vstd::prelude::*;

pub mod text;
pub mod locator;
pub mod ktp;
pub mod session;
pub mod gitsync;
pub mod listing;

verus! {

} // verus!
