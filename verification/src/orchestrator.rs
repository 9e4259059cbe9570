//! The injection orchestrator: a state machine that sequences the three
//! user-visible operations — inject, eject, reload — over one resolved target
//! pid and one resolved library path.
//!
//! The machine owns the decisions; it emits an [`Action`] for an unverified
//! driver to perform against the OS, and consumes the [`Event`] the driver
//! hands back. Reload is eject followed by inject against the same pid and
//! path, never interleaved.

use vstd::prelude::*;

use crate::remote::interpret_exit;
use crate::remote::RemoteRegion;
use crate::snapshot::find_module_index;
use crate::snapshot::ModuleRecord;
use crate::wide::WidePath;
use crate::InjectError;

verus! {

/// The operation the caller selected.
#[derive(Debug, Clone, Copy, PartialEq, Eq, Structural)]
pub enum Mode {
    /// Load the library into the target process.
    Inject,
    /// Unload the library from the target process, a no-op when it is not
    /// loaded.
    Eject,
    /// Eject, then inject, against the same pid and path.
    Reload,
}

/// Which cached OS entry point a remote thread starts at.
#[derive(Debug, Clone, Copy, PartialEq, Eq, Structural)]
pub enum EntryPoint {
    /// The OS library-loader entry point; its argument is the address of the
    /// written path payload.
    Loader,
    /// The OS library-unloader entry point; its argument is the module's base
    /// address.
    Unloader,
}

/// Which half of the work the machine is in; reload passes through both.
#[derive(Debug, Clone, Copy, PartialEq, Eq, Structural)]
pub enum Phase {
    Inject,
    Eject,
}

/// One OS operation the driver must perform next.
#[derive(Debug, Clone, Copy, PartialEq, Eq, Structural)]
pub enum Action {
    /// Open the target process with the rights in
    /// [`crate::remote::OPEN_PROCESS_RIGHTS`].
    OpenProcess { pid: u32 },
    /// Snapshot the modules loaded in the target.
    SnapshotModules { pid: u32 },
    /// Allocate `size` bytes of read-write memory in the target.
    Allocate { size: usize },
    /// Copy `len` payload bytes to the allocated region, `offset` bytes past
    /// its start.
    Write { offset: usize, len: usize },
    /// Create a remote thread at the entry point with the given argument.
    Spawn { entry: EntryPoint, arg: u64 },
    /// Wait indefinitely for the remote thread and retrieve its exit code.
    Join,
}

/// How a finished operation ended well.
#[derive(Debug, Clone, Copy, PartialEq, Eq, Structural)]
pub enum Outcome {
    /// The loader returned this non-zero value (the new module's base by OS
    /// convention, not inspected further).
    Injected { exit: u32 },
    /// The unloader returned this non-zero value.
    Ejected { exit: u32 },
    /// Eject found no module with the resolved path: a successful no-op, no
    /// remote thread was spawned.
    NotLoaded,
}

/// What the machine says after consuming one event: the next action to
/// perform, or the operation's result.
#[derive(Debug, PartialEq, Eq)]
pub enum Step {
    Act(Action),
    Done(Result<Outcome, InjectError>),
}

/// Where the machine stands: which answer from the driver it awaits.
#[derive(Debug, Clone, Copy)]
pub enum State {
    /// Nothing has happened yet; awaiting the start signal.
    Idle,
    /// A module snapshot was requested; `reinject` records whether an inject
    /// must follow the eject.
    AwaitModules { reinject: bool },
    /// The module to eject was found at `module_base`; a process open was
    /// requested.
    AwaitOpenEject { reinject: bool, module_base: u64 },
    /// A process open was requested on the way to injecting.
    AwaitOpenInject,
    /// An allocation sized to the payload was requested.
    AwaitAlloc,
    /// The payload write into `region` was requested.
    AwaitWrite { region: RemoteRegion },
    /// A remote thread spawn was requested.
    AwaitSpawn { phase: Phase, reinject: bool },
    /// A join on the spawned thread was requested.
    AwaitJoin { phase: Phase, reinject: bool },
    /// The operation ended; the machine accepts nothing further.
    Finished,
}

/// Whether some module in the list carries exactly this path.
pub open spec fn has_module(mods: Seq<ModuleRecord>, path: Seq<u16>) -> bool {
    exists|i: int| 0 <= i < mods.len() && mods[i].path@ == path
}

/// Whether `base` is the base address of the first module in the list that
/// carries exactly this path.
pub open spec fn is_first_module_base(mods: Seq<ModuleRecord>, path: Seq<u16>, base: u64) -> bool {
    exists|i: int|
        {
            &&& 0 <= i < mods.len()
            &&& mods[i].path@ == path
            &&& base == mods[i].base
            &&& forall|j: int| 0 <= j < i ==> mods[j].path@ != path
        }
}

/// What the driver reports back after performing the requested action.
#[derive(Debug)]
pub enum Event {
    /// Drive the machine out of its idle state.
    Start,
    /// The process handle was opened.
    Opened,
    /// The OS denied the open.
    OpenFailed,
    /// The module snapshot was drained into these records.
    Modules { modules: Vec<ModuleRecord> },
    /// The snapshot could not be taken or walked.
    SnapshotFailed,
    /// The region was allocated at this base address in the target.
    Allocated { base: u64 },
    /// The OS refused the allocation.
    AllocFailed,
    /// The payload bytes were copied.
    Wrote,
    /// The OS refused the copy.
    WriteFailed,
    /// The remote thread was created.
    Spawned,
    /// The OS refused to create the thread.
    SpawnFailed,
    /// The remote thread terminated with this exit code.
    Joined { code: u32 },
    /// Waiting, or reading the exit code, failed.
    JoinFailed,
}

/// The injection orchestrator over one resolved pid and path.
pub struct Orchestrator {
    /// The resolved target process id; fixed for the whole operation.
    pub pid: u32,
    /// The resolved library path; fixed for the whole operation.
    pub path: WidePath,
    /// The selected operation.
    pub mode: Mode,
    /// Which answer the machine awaits.
    pub state: State,
}

impl Orchestrator {
    /// Which events fit the current state: exactly the possible answers to
    /// the action the machine last emitted.
    pub open spec fn expects(self, ev: Event) -> bool {
        match self.state {
            State::Idle => ev is Start,
            State::AwaitModules { .. } => ev is Modules || ev is SnapshotFailed,
            State::AwaitOpenEject { .. } => ev is Opened || ev is OpenFailed,
            State::AwaitOpenInject => ev is Opened || ev is OpenFailed,
            State::AwaitAlloc => ev is Allocated || ev is AllocFailed,
            State::AwaitWrite { .. } => ev is Wrote || ev is WriteFailed,
            State::AwaitSpawn { .. } => ev is Spawned || ev is SpawnFailed,
            State::AwaitJoin { .. } => ev is Joined || ev is JoinFailed,
            State::Finished => false,
        }
    }

    /// A fresh machine for one operation against one resolved pid and path.
    pub fn new(pid: u32, path: WidePath, mode: Mode) -> (r: Orchestrator)
        ensures
            r.pid == pid,
            r.path@ == path@,
            r.mode == mode,
            r.state is Idle,
    {
        Orchestrator { pid, path, mode, state: State::Idle }
    }

    /// Consume one event and say what comes next. The pid, path and mode
    /// never change; the machine is done exactly when it reports `Done`, and
    /// then accepts nothing further.
    ///
    /// Inject runs open, allocate (sized to the NUL-terminated wide path),
    /// write (once, at offset zero, filling the region exactly), spawn at the
    /// loader with the region's address, join. Eject snapshots the modules
    /// first: when no module carries the path it finishes successfully
    /// without opening or spawning anything; otherwise it runs open, spawn at
    /// the unloader with the first matching module's base, join. Reload is
    /// eject followed by inject. A zero exit code from either entry point is
    /// the semantic failure; any failure event ends the operation with its
    /// error.
    pub fn step(&mut self, ev: Event) -> (r: Step)
        requires
            old(self).expects(ev),
        ensures
            final(self).pid == old(self).pid,
            final(self).path@ == old(self).path@,
            final(self).mode == old(self).mode,
            r is Done <==> final(self).state is Finished,
            old(self).state is Idle ==> {
                &&& old(self).mode is Inject ==> r == (Step::Act(
                    Action::OpenProcess { pid: old(self).pid },
                )) && final(self).state is AwaitOpenInject
                &&& old(self).mode is Eject ==> r == (Step::Act(
                    Action::SnapshotModules { pid: old(self).pid },
                )) && final(self).state == (State::AwaitModules { reinject: false })
                &&& old(self).mode is Reload ==> r == (Step::Act(
                    Action::SnapshotModules { pid: old(self).pid },
                )) && final(self).state == (State::AwaitModules { reinject: true })
            },
            old(self).state matches State::AwaitModules { reinject } ==> {
                &&& (ev matches Event::Modules { modules } ==> {
                    &&& has_module(modules@, old(self).path@.drop_last()) ==> r == (Step::Act(
                        Action::OpenProcess { pid: old(self).pid },
                    )) && (final(self).state matches State::AwaitOpenEject {
                        reinject: rj,
                        module_base,
                    } && rj == reinject && is_first_module_base(
                        modules@,
                        old(self).path@.drop_last(),
                        module_base,
                    ))
                    &&& !has_module(modules@, old(self).path@.drop_last()) && reinject ==> r == (
                    Step::Act(Action::OpenProcess { pid: old(self).pid })) && final(self).state
                        is AwaitOpenInject
                    &&& !has_module(modules@, old(self).path@.drop_last()) && !reinject ==> r == (
                    Step::Done(Ok(Outcome::NotLoaded))) && final(self).state is Finished
                })
                &&& (ev is SnapshotFailed ==> r == (Step::Done(Err(InjectError::Snapshot)))
                    && final(self).state is Finished)
            },
            old(self).state matches State::AwaitOpenEject { reinject, module_base } ==> {
                &&& ev is Opened ==> r == (Step::Act(
                    Action::Spawn { entry: EntryPoint::Unloader, arg: module_base },
                )) && final(self).state == (State::AwaitSpawn { phase: Phase::Eject, reinject })
                &&& ev is OpenFailed ==> r == (Step::Done(Err(InjectError::Access))) && final(self).state is Finished
            },
            old(self).state is AwaitOpenInject ==> {
                &&& ev is Opened ==> (r matches Step::Act(a) && a matches Action::Allocate { size }
                    && size == 2 * old(self).path@.len()) && final(self).state is AwaitAlloc
                &&& ev is OpenFailed ==> r == (Step::Done(Err(InjectError::Access))) && final(self).state is Finished
            },
            old(self).state is AwaitAlloc ==> {
                &&& (ev matches Event::Allocated { base } ==> {
                    &&& (r matches Step::Act(a) && a matches Action::Write { offset, len }
                        && offset == 0 && len == 2 * old(self).path@.len())
                    &&& (final(self).state matches State::AwaitWrite { region } && region.base_spec()
                        == base && region.size_spec() == 2 * old(self).path@.len()
                        && region.written_spec() == 2 * old(self).path@.len())
                })
                &&& (ev is AllocFailed ==> r == (Step::Done(Err(InjectError::Allocation))) && final(self).state is Finished)
            },
            old(self).state matches State::AwaitWrite { region } ==> {
                &&& ev is Wrote ==> r == (Step::Act(
                    Action::Spawn { entry: EntryPoint::Loader, arg: region.base_spec() },
                )) && final(self).state == (State::AwaitSpawn {
                    phase: Phase::Inject,
                    reinject: false,
                })
                &&& ev is WriteFailed ==> r == (Step::Done(Err(InjectError::Write))) && final(self).state is Finished
            },
            old(self).state matches State::AwaitSpawn { phase, reinject } ==> {
                &&& ev is Spawned ==> r == (Step::Act(Action::Join)) && final(self).state == (
                State::AwaitJoin { phase, reinject })
                &&& ev is SpawnFailed ==> r == (Step::Done(Err(InjectError::Spawn))) && final(self).state is Finished
            },
            old(self).state matches State::AwaitJoin { phase, reinject } ==> {
                &&& (ev matches Event::Joined { code } ==> {
                    &&& code == 0 ==> r == (Step::Done(Err(InjectError::SemanticFailure))) && final(self).state is Finished
                    &&& code != 0 && phase is Inject ==> r == (Step::Done(
                        Ok(Outcome::Injected { exit: code }),
                    )) && final(self).state is Finished
                    &&& code != 0 && phase is Eject && reinject ==> r == (Step::Act(
                        Action::OpenProcess { pid: old(self).pid },
                    )) && final(self).state is AwaitOpenInject
                    &&& code != 0 && phase is Eject && !reinject ==> r == (Step::Done(
                        Ok(Outcome::Ejected { exit: code }),
                    )) && final(self).state is Finished
                })
                &&& (ev is JoinFailed ==> r == (Step::Done(Err(InjectError::Join))) && final(self).state is Finished)
            },
    {
        let st = self.state;
        let (next, out): (State, Step) = match (st, ev) {
            (State::Idle, Event::Start) => match self.mode {
                Mode::Inject => (
                    State::AwaitOpenInject,
                    Step::Act(Action::OpenProcess { pid: self.pid }),
                ),
                Mode::Eject => (
                    State::AwaitModules { reinject: false },
                    Step::Act(Action::SnapshotModules { pid: self.pid }),
                ),
                Mode::Reload => (
                    State::AwaitModules { reinject: true },
                    Step::Act(Action::SnapshotModules { pid: self.pid }),
                ),
            },
            (State::AwaitModules { reinject }, Event::Modules { modules }) => {
                let target = self.path.interior_units();
                match find_module_index(&modules, target) {
                    Some(i) => {
                        let base = modules[i].base;
                        (
                            State::AwaitOpenEject { reinject, module_base: base },
                            Step::Act(Action::OpenProcess { pid: self.pid }),
                        )
                    },
                    None => {
                        if reinject {
                            (
                                State::AwaitOpenInject,
                                Step::Act(Action::OpenProcess { pid: self.pid }),
                            )
                        } else {
                            (State::Finished, Step::Done(Ok(Outcome::NotLoaded)))
                        }
                    },
                }
            },
            (State::AwaitModules { .. }, Event::SnapshotFailed) => (
                State::Finished,
                Step::Done(Err(InjectError::Snapshot)),
            ),
            (State::AwaitOpenEject { reinject, module_base }, Event::Opened) => (
                State::AwaitSpawn { phase: Phase::Eject, reinject },
                Step::Act(Action::Spawn { entry: EntryPoint::Unloader, arg: module_base }),
            ),
            (State::AwaitOpenEject { .. }, Event::OpenFailed) => (
                State::Finished,
                Step::Done(Err(InjectError::Access)),
            ),
            (State::AwaitOpenInject, Event::Opened) => (
                State::AwaitAlloc,
                Step::Act(Action::Allocate { size: self.path.byte_len() }),
            ),
            (State::AwaitOpenInject, Event::OpenFailed) => (
                State::Finished,
                Step::Done(Err(InjectError::Access)),
            ),
            (State::AwaitAlloc, Event::Allocated { base }) => {
                let data = self.path.payload_bytes();
                let len = data.len();
                let mut region = RemoteRegion::new(base, self.path.byte_len());
                match region.write(data.as_slice()) {
                    Ok(off) => (
                        State::AwaitWrite { region },
                        Step::Act(Action::Write { offset: off, len }),
                    ),
                    Err(_) => {
                        proof {
                            assert(false);
                        }
                        (State::Finished, Step::Done(Err(InjectError::Write)))
                    },
                }
            },
            (State::AwaitAlloc, Event::AllocFailed) => (
                State::Finished,
                Step::Done(Err(InjectError::Allocation)),
            ),
            (State::AwaitWrite { region }, Event::Wrote) => (
                State::AwaitSpawn { phase: Phase::Inject, reinject: false },
                Step::Act(Action::Spawn { entry: EntryPoint::Loader, arg: region.base() }),
            ),
            (State::AwaitWrite { .. }, Event::WriteFailed) => (
                State::Finished,
                Step::Done(Err(InjectError::Write)),
            ),
            (State::AwaitSpawn { phase, reinject }, Event::Spawned) => (
                State::AwaitJoin { phase, reinject },
                Step::Act(Action::Join),
            ),
            (State::AwaitSpawn { .. }, Event::SpawnFailed) => (
                State::Finished,
                Step::Done(Err(InjectError::Spawn)),
            ),
            (State::AwaitJoin { phase, reinject }, Event::Joined { code }) => {
                match interpret_exit(code) {
                    Err(e) => (State::Finished, Step::Done(Err(e))),
                    Ok(c) => match phase {
                        Phase::Inject => (
                            State::Finished,
                            Step::Done(Ok(Outcome::Injected { exit: c })),
                        ),
                        Phase::Eject => {
                            if reinject {
                                (
                                    State::AwaitOpenInject,
                                    Step::Act(Action::OpenProcess { pid: self.pid }),
                                )
                            } else {
                                (State::Finished, Step::Done(Ok(Outcome::Ejected { exit: c })))
                            }
                        },
                    },
                }
            },
            (State::AwaitJoin { .. }, Event::JoinFailed) => (
                State::Finished,
                Step::Done(Err(InjectError::Join)),
            ),
            _ => {
                proof {
                    assert(false);
                }
                (State::Finished, Step::Done(Err(InjectError::Join)))
            },
        };
        self.state = next;
        out
    }
}

/// The module table of the target after a successful inject: the path's
/// module is loaded, everything else untouched.
pub open spec fn table_after_inject(t: Set<Seq<u16>>, p: Seq<u16>) -> Set<Seq<u16>> {
    t.insert(p)
}

/// The module table of the target after a successful eject: the path's
/// module is gone, everything else untouched. Ejecting an absent module
/// changes nothing.
pub open spec fn table_after_eject(t: Set<Seq<u16>>, p: Seq<u16>) -> Set<Seq<u16>> {
    t.remove(p)
}

/// Reload — eject then inject of the same path against the same target — ends
/// with exactly the module table that inject alone ends with, whatever was
/// loaded before.
pub proof fn lemma_reload_matches_inject(t: Set<Seq<u16>>, p: Seq<u16>)
    ensures
        table_after_inject(table_after_eject(t, p), p) == table_after_inject(t, p),
{
    assert(table_after_inject(table_after_eject(t, p), p) =~= table_after_inject(t, p));
}

/// The set of full paths a module snapshot reports as loaded.
pub open spec fn module_paths(mods: Seq<ModuleRecord>) -> Set<Seq<u16>> {
    Set::new(|q: Seq<u16>| exists|i: int| 0 <= i < mods.len() && mods[i].path@ == q)
}

/// Ejecting a library that is not loaded changes nothing.
pub proof fn lemma_eject_absent_noop(t: Set<Seq<u16>>, p: Seq<u16>)
    requires
        !t.contains(p),
    ensures
        table_after_eject(t, p) == t,
{
    assert(table_after_eject(t, p) =~= t);
}

/// Eject against a snapshot in which no module carries the path leaves the
/// target's module table exactly as it was; per `step`'s contract the machine
/// then finishes successfully without spawning anything, so ejecting twice is
/// safe.
pub proof fn lemma_eject_unfound_preserves_table(mods: Seq<ModuleRecord>, p: Seq<u16>)
    requires
        !has_module(mods, p),
    ensures
        table_after_eject(module_paths(mods), p) == module_paths(mods),
{
    assert(!module_paths(mods).contains(p));
    lemma_eject_absent_noop(module_paths(mods), p);
}

/// Ejecting twice is ejecting once: the second eject finds nothing to unload.
pub proof fn lemma_eject_idempotent(t: Set<Seq<u16>>, p: Seq<u16>)
    ensures
        table_after_eject(table_after_eject(t, p), p) == table_after_eject(t, p),
{
    assert(table_after_eject(table_after_eject(t, p), p) =~= table_after_eject(t, p));
}

} // verus!
