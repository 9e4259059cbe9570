//! Decoding and enumeration of OS snapshot records: the fixed-width raw
//! entries a snapshot hands back, the trimmed records the rest of the system
//! works on, and the lazy, finite, non-restartable walk over them.
//!
//! The snapshot resource itself is an OS object; an unverified driver drains
//! it into raw entries and classifies each OS answer with
//! [`classify_enum_result`]. Everything after that point is verified.

use vstd::prelude::*;

use crate::wide::nul_limit;
use crate::wide::trim_at_nul;
use crate::InjectError;

verus! {

/// The OS status that signals the end of a snapshot walk; every other failing
/// status is fatal.
pub const ERROR_NO_MORE_FILES: u32 = 18;

/// What one advance of the OS snapshot cursor means for the enumeration.
#[derive(Debug, Clone, Copy, PartialEq, Eq, Structural)]
pub enum EnumStep {
    /// The OS produced one more raw entry.
    Entry,
    /// The specific "no more entries" status: normal termination.
    End,
    /// Any other failure: the walk cannot be resumed.
    Fatal,
}

/// Map one OS answer during snapshot iteration to its meaning: success is one
/// more entry, the "no more entries" status is normal termination, and every
/// other status is fatal.
pub fn classify_enum_result(succeeded: bool, error_code: u32) -> (r: EnumStep)
    ensures
        succeeded ==> r is Entry,
        !succeeded && error_code == ERROR_NO_MORE_FILES ==> r is End,
        !succeeded && error_code != ERROR_NO_MORE_FILES ==> r is Fatal,
{
    if succeeded {
        EnumStep::Entry
    } else if error_code == ERROR_NO_MORE_FILES {
        EnumStep::End
    } else {
        EnumStep::Fatal
    }
}

/// One raw process entry as the OS reports it: a process id and a fixed-width,
/// NUL-terminated executable-name buffer that may not be fully populated.
pub struct RawProcessEntry {
    pub pid: u32,
    pub exe_file: Vec<u16>,
}

/// One live process at snapshot time, with its name trimmed at the first NUL.
#[derive(Debug)]
pub struct ProcessRecord {
    pub pid: u32,
    pub name: Vec<u16>,
}

/// What decoding a raw process entry must produce: the same process id, and
/// the name buffer cut at its first NUL (or kept whole when none occurs).
pub open spec fn is_process_record_of(rec: ProcessRecord, raw: RawProcessEntry) -> bool {
    &&& rec.pid == raw.pid
    &&& rec.name@ == raw.exe_file@.take(nul_limit(raw.exe_file@))
}

impl ProcessRecord {
    /// Decode one raw entry, trimming the name at its first NUL.
    pub fn from_raw(raw: &RawProcessEntry) -> (r: ProcessRecord)
        ensures
            is_process_record_of(r, *raw),
    {
        ProcessRecord { pid: raw.pid, name: trim_at_nul(raw.exe_file.as_slice()) }
    }
}

/// One raw module entry as the OS reports it for a target process: fixed-width
/// NUL-terminated name and full-path buffers, and the module's base address.
pub struct RawModuleEntry {
    pub module_name: Vec<u16>,
    pub exe_path: Vec<u16>,
    pub base: u64,
}

/// One module loaded in the target at snapshot time, both buffers trimmed at
/// their first NUL. The base address is valid only while the owning process
/// lives and the module stays loaded.
#[derive(Debug)]
pub struct ModuleRecord {
    pub name: Vec<u16>,
    pub path: Vec<u16>,
    pub base: u64,
}

/// What decoding a raw module entry must produce.
pub open spec fn is_module_record_of(rec: ModuleRecord, raw: RawModuleEntry) -> bool {
    &&& rec.name@ == raw.module_name@.take(nul_limit(raw.module_name@))
    &&& rec.path@ == raw.exe_path@.take(nul_limit(raw.exe_path@))
    &&& rec.base == raw.base
}

impl ModuleRecord {
    /// Decode one raw entry, trimming both buffers at their first NUL.
    pub fn from_raw(raw: &RawModuleEntry) -> (r: ModuleRecord)
        ensures
            is_module_record_of(r, *raw),
    {
        ModuleRecord {
            name: trim_at_nul(raw.module_name.as_slice()),
            path: trim_at_nul(raw.exe_path.as_slice()),
            base: raw.base,
        }
    }
}

/// A lazy, finite, non-restartable walk over the raw process entries of one
/// snapshot: each call to `next` yields the next record, and after the last
/// one every further call yields `None`, never an error.
pub struct ProcessSnapshot {
    entries: Vec<RawProcessEntry>,
    pos: usize,
}

impl ProcessSnapshot {
    /// The raw entries this snapshot was taken with.
    pub closed spec fn raws(&self) -> Seq<RawProcessEntry> {
        self.entries@
    }

    /// How many records have been produced so far.
    pub closed spec fn produced(&self) -> int {
        self.pos as int
    }

    /// Wrap the raw entries an OS snapshot produced.
    pub fn new(entries: Vec<RawProcessEntry>) -> (r: ProcessSnapshot)
        ensures
            r.raws() == entries@,
            r.produced() == 0,
    {
        ProcessSnapshot { entries, pos: 0 }
    }

    /// Yield the next record: exactly one per raw entry, in order, then `None`
    /// forever.
    pub fn next(&mut self) -> (r: Option<ProcessRecord>)
        ensures
            final(self).raws() == old(self).raws(),
            old(self).produced() < old(self).raws().len() ==> r is Some && final(self).produced()
                == old(self).produced() + 1,
            r matches Some(rec) ==> is_process_record_of(
                rec,
                old(self).raws()[old(self).produced()],
            ),
            old(self).produced() >= old(self).raws().len() ==> r is None && final(self).produced()
                == old(self).produced(),
    {
        if self.pos < self.entries.len() {
            let rec = ProcessRecord::from_raw(&self.entries[self.pos]);
            self.pos = self.pos + 1;
            Some(rec)
        } else {
            None
        }
    }
}

/// A lazy, finite, non-restartable walk over the raw module entries of one
/// snapshot, scoped to one target process.
pub struct ModuleSnapshot {
    entries: Vec<RawModuleEntry>,
    pos: usize,
}

impl ModuleSnapshot {
    /// The raw entries this snapshot was taken with.
    pub closed spec fn raws(&self) -> Seq<RawModuleEntry> {
        self.entries@
    }

    /// How many records have been produced so far.
    pub closed spec fn produced(&self) -> int {
        self.pos as int
    }

    /// Wrap the raw entries an OS snapshot produced.
    pub fn new(entries: Vec<RawModuleEntry>) -> (r: ModuleSnapshot)
        ensures
            r.raws() == entries@,
            r.produced() == 0,
    {
        ModuleSnapshot { entries, pos: 0 }
    }

    /// Yield the next record: exactly one per raw entry, in order, then `None`
    /// forever.
    pub fn next(&mut self) -> (r: Option<ModuleRecord>)
        ensures
            final(self).raws() == old(self).raws(),
            old(self).produced() < old(self).raws().len() ==> r is Some && final(self).produced()
                == old(self).produced() + 1,
            r matches Some(rec) ==> is_module_record_of(
                rec,
                old(self).raws()[old(self).produced()],
            ),
            old(self).produced() >= old(self).raws().len() ==> r is None && final(self).produced()
                == old(self).produced(),
    {
        if self.pos < self.entries.len() {
            let rec = ModuleRecord::from_raw(&self.entries[self.pos]);
            self.pos = self.pos + 1;
            Some(rec)
        } else {
            None
        }
    }
}

/// Drain a fresh process snapshot: exactly one record per raw entry, in order.
pub fn collect_processes(snap: &mut ProcessSnapshot) -> (r: Vec<ProcessRecord>)
    requires
        old(snap).produced() == 0,
    ensures
        r@.len() == old(snap).raws().len(),
        forall|i: int| 0 <= i < r@.len() ==> is_process_record_of(r@[i], old(snap).raws()[i]),
{
    let mut out: Vec<ProcessRecord> = Vec::new();
    loop
        invariant
            snap.raws() == old(snap).raws(),
            0 <= snap.produced() <= snap.raws().len(),
            out@.len() == snap.produced(),
            forall|i: int| 0 <= i < out@.len() ==> is_process_record_of(out@[i], snap.raws()[i]),
        decreases snap.raws().len() - snap.produced(),
    {
        match snap.next() {
            Some(rec) => out.push(rec),
            None => {
                return out;
            },
        }
    }
}

/// Drain a fresh module snapshot: exactly one record per raw entry, in order.
pub fn collect_modules(snap: &mut ModuleSnapshot) -> (r: Vec<ModuleRecord>)
    requires
        old(snap).produced() == 0,
    ensures
        r@.len() == old(snap).raws().len(),
        forall|i: int| 0 <= i < r@.len() ==> is_module_record_of(r@[i], old(snap).raws()[i]),
{
    let mut out: Vec<ModuleRecord> = Vec::new();
    loop
        invariant
            snap.raws() == old(snap).raws(),
            0 <= snap.produced() <= snap.raws().len(),
            out@.len() == snap.produced(),
            forall|i: int| 0 <= i < out@.len() ==> is_module_record_of(out@[i], snap.raws()[i]),
        decreases snap.raws().len() - snap.produced(),
    {
        match snap.next() {
            Some(rec) => out.push(rec),
            None => {
                return out;
            },
        }
    }
}

/// Whether two unit slices hold the same units.
pub fn units_eq(a: &[u16], b: &[u16]) -> (r: bool)
    ensures
        r <==> a@ == b@,
{
    if a.len() != b.len() {
        return false;
    }
    let n = a.len();
    let mut i: usize = 0;
    while i < n
        invariant
            n == a@.len() == b@.len(),
            0 <= i <= n,
            forall|j: int| 0 <= j < i ==> a@[j] == b@[j],
        decreases n - i,
    {
        if a[i] != b[i] {
            return false;
        }
        i = i + 1;
    }
    proof {
        assert(a@ =~= b@);
    }
    true
}

/// Resolve a process name to the pid of the first snapshot record carrying
/// that name; the resolution error exactly when no record does.
pub fn find_pid_by_name(records: &Vec<ProcessRecord>, name: &[u16]) -> (r: Result<
    u32,
    InjectError,
>)
    ensures
        r is Ok <==> exists|i: int| 0 <= i < records@.len() && records@[i].name@ == name@,
        r matches Ok(p) ==> exists|i: int|
            {
                &&& 0 <= i < records@.len()
                &&& records@[i].name@ == name@
                &&& p == records@[i].pid
                &&& forall|j: int| 0 <= j < i ==> records@[j].name@ != name@
            },
        r matches Err(e) ==> e == InjectError::Resolution,
{
    let n = records.len();
    let mut i: usize = 0;
    while i < n
        invariant
            n == records@.len(),
            0 <= i <= n,
            forall|j: int| 0 <= j < i ==> records@[j].name@ != name@,
        decreases n - i,
    {
        if units_eq(records[i].name.as_slice(), name) {
            return Ok(records[i].pid);
        }
        i = i + 1;
    }
    Err(InjectError::Resolution)
}

/// The index of the first module whose reported full path equals the given
/// units exactly (case-sensitive); `None` exactly when no module's path does.
pub fn find_module_index(modules: &Vec<ModuleRecord>, path: &[u16]) -> (r: Option<usize>)
    ensures
        r is Some <==> exists|i: int| 0 <= i < modules@.len() && modules@[i].path@ == path@,
        r matches Some(i) ==> {
            &&& 0 <= i < modules@.len()
            &&& modules@[i as int].path@ == path@
            &&& forall|j: int| 0 <= j < i ==> modules@[j].path@ != path@
        },
{
    let n = modules.len();
    let mut i: usize = 0;
    while i < n
        invariant
            n == modules@.len(),
            0 <= i <= n,
            forall|j: int| 0 <= j < i ==> modules@[j].path@ != path@,
        decreases n - i,
    {
        if units_eq(modules[i].path.as_slice(), path) {
            return Some(i);
        }
        i = i + 1;
    }
    None
}

} // verus!
