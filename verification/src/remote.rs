//! The resources owned inside the target process: the access rights a process
//! handle is opened with, the remote memory region's write rule, and the
//! interpretation of a remote thread's wait status and exit code.

use vstd::prelude::*;

use crate::InjectError;

verus! {

/// Right to create a thread in the target.
pub const PROCESS_CREATE_THREAD: u32 = 0x0002;

/// Right to query information about the target.
pub const PROCESS_QUERY_INFORMATION: u32 = 0x0400;

/// Right to perform virtual-memory operations in the target.
pub const PROCESS_VM_OPERATION: u32 = 0x0008;

/// Right to read the target's memory.
pub const PROCESS_VM_READ: u32 = 0x0010;

/// Right to write the target's memory.
pub const PROCESS_VM_WRITE: u32 = 0x0020;

/// The combined rights a target process handle is opened with: create-thread,
/// query-information, VM-operation, VM-write and VM-read, nothing more.
pub const OPEN_PROCESS_RIGHTS: u32 = PROCESS_CREATE_THREAD | PROCESS_QUERY_INFORMATION
    | PROCESS_VM_OPERATION | PROCESS_VM_READ | PROCESS_VM_WRITE;

/// The wait status that says the remote thread terminated.
pub const WAIT_OBJECT_0: u32 = 0;

/// The wait status that says the wait itself failed.
pub const WAIT_FAILED: u32 = 0xFFFF_FFFF;

/// A block of memory allocated inside the target's address space: its start
/// address, its fixed size, and how many bytes have been written into it so
/// far. The region never grows.
#[derive(Debug, Clone, Copy)]
pub struct RemoteRegion {
    base: u64,
    size: usize,
    written: usize,
}

impl RemoteRegion {
    #[verifier::type_invariant]
    spec fn inv(&self) -> bool {
        self.written <= self.size
    }

    /// The region's start address in the target.
    pub closed spec fn base_spec(&self) -> u64 {
        self.base
    }

    /// The region's size in bytes, fixed at allocation.
    pub closed spec fn size_spec(&self) -> int {
        self.size as int
    }

    /// How many bytes have been written into the region so far.
    pub closed spec fn written_spec(&self) -> int {
        self.written as int
    }

    /// Record a fresh allocation of `size` bytes starting at `base` in the
    /// target; nothing has been written yet.
    pub fn new(base: u64, size: usize) -> (r: RemoteRegion)
        ensures
            r.base_spec() == base,
            r.size_spec() == size,
            r.written_spec() == 0,
    {
        RemoteRegion { base, size, written: 0 }
    }

    /// The start address, exposed read-only for use as a thread argument.
    pub fn base(&self) -> (r: u64)
        ensures
            r == self.base_spec(),
    {
        self.base
    }

    /// The fixed size in bytes.
    pub fn size(&self) -> (r: usize)
        ensures
            r == self.size_spec(),
    {
        self.size
    }

    /// Accept one write of `data` into the region, cumulatively: the write
    /// lands at the returned offset from the region's start, and fails with
    /// `WriteTooLarge` exactly when it would run past the region's end — in
    /// particular whenever `data` alone is larger than the region. A failed
    /// write changes nothing: the region never partially accepts.
    pub fn write(&mut self, data: &[u8]) -> (r: Result<usize, InjectError>)
        ensures
            final(self).base_spec() == old(self).base_spec(),
            final(self).size_spec() == old(self).size_spec(),
            r is Ok <==> old(self).written_spec() + data@.len() <= old(self).size_spec(),
            r matches Ok(off) ==> off == old(self).written_spec() && final(self).written_spec()
                == old(self).written_spec() + data@.len(),
            r matches Err(e) ==> e == InjectError::WriteTooLarge && *final(self) == *old(self),
            data@.len() > old(self).size_spec() ==> r is Err,
    {
        proof {
            use_type_invariant(&*self);
        }
        if data.len() <= self.size - self.written {
            let off = self.written;
            self.written = self.written + data.len();
            Ok(off)
        } else {
            Err(InjectError::WriteTooLarge)
        }
    }
}

/// Interpret the OS answer to an indefinite wait on the remote thread: the
/// wait either reports the thread terminated or reports its own failure.
pub fn wait_outcome(status: u32) -> (r: Result<(), InjectError>)
    requires
        status == WAIT_OBJECT_0 || status == WAIT_FAILED,
    ensures
        r is Ok <==> status == WAIT_OBJECT_0,
        r matches Err(e) ==> e == InjectError::Join,
{
    if status == WAIT_OBJECT_0 {
        Ok(())
    } else {
        Err(InjectError::Join)
    }
}

/// Interpret a joined remote thread's exit code under the loader convention:
/// zero means the remote load or unload call itself failed, a semantic
/// failure even though the OS calls all succeeded; any non-zero value is
/// success and is handed back untouched.
pub fn interpret_exit(code: u32) -> (r: Result<u32, InjectError>)
    ensures
        r is Ok <==> code != 0,
        r matches Ok(c) ==> c == code,
        r matches Err(e) ==> e == InjectError::SemanticFailure,
{
    if code != 0 {
        Ok(code)
    } else {
        Err(InjectError::SemanticFailure)
    }
}

} // verus!
