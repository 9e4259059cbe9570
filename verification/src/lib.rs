//! Remote library injection for a foreign OS process, modelled and verified.
//!
//! The crate verifies the decision core of the classic allocate-write-remote-call
//! injection pattern: encoding the library path as a NUL-terminated wide string,
//! decoding fixed-width snapshot records, the remote memory region's write rule,
//! the interpretation of a remote thread's exit code, and the orchestrator state
//! machine that sequences inject, eject and reload. The OS calls themselves are
//! performed by an unverified driver that executes the actions this library emits
//! and feeds back the outcomes as events.

use vstd::prelude::*;

pub mod orchestrator;
pub mod remote;
pub mod snapshot;
pub mod wide;

verus! {

/// Everything that can go wrong across the process boundary, one variant per
/// failure source.
#[derive(Debug, Clone, Copy, PartialEq, Eq, Structural)]
pub enum InjectError {
    /// No process with the requested name exists in the snapshot.
    Resolution,
    /// The OS refused to open the target process with the requested rights.
    Access,
    /// The OS refused to allocate memory inside the target.
    Allocation,
    /// The supplied bytes do not fit in the allocated region.
    WriteTooLarge,
    /// The OS refused to copy bytes into the target.
    Write,
    /// The OS refused to create the remote thread.
    Spawn,
    /// Waiting for the remote thread, or reading its exit code, failed.
    Join,
    /// Taking a snapshot of processes or modules failed.
    Snapshot,
    /// The remote call itself reported failure: a zero exit code from the
    /// loader or unloader entry point.
    SemanticFailure,
}

impl InjectError {
    /// A human-readable message for the variant, for the surrounding program
    /// to print on exit.
    pub fn describe(&self) -> (r: &'static str)
        ensures
            r@.len() > 0,
    {
        let r = match self {
            InjectError::Resolution => "can not find specified process",
            InjectError::Access => "failed to open process",
            InjectError::Allocation => "failed to allocate process memory",
            InjectError::WriteTooLarge => "too many bytes for the allocated region",
            InjectError::Write => "failed to write process memory",
            InjectError::Spawn => "failed to spawn remote thread",
            InjectError::Join => "failed to join remote thread",
            InjectError::Snapshot => "failed to snapshot the target",
            InjectError::SemanticFailure => "remote call reported failure",
        };
        proof {
            reveal_strlit("can not find specified process");
            reveal_strlit("failed to open process");
            reveal_strlit("failed to allocate process memory");
            reveal_strlit("too many bytes for the allocated region");
            reveal_strlit("failed to write process memory");
            reveal_strlit("failed to spawn remote thread");
            reveal_strlit("failed to join remote thread");
            reveal_strlit("failed to snapshot the target");
            reveal_strlit("remote call reported failure");
        }
        r
    }
}

} // verus!
