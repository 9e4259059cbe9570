use injector::orchestrator::{
    Action, EntryPoint, Event, Mode, Orchestrator, Outcome, State, Step,
};
use injector::snapshot::ModuleRecord;
use injector::wide::WidePath;
use injector::InjectError;

fn units(s: &str) -> Vec<u16> {
    s.chars().map(|c| c as u16).collect()
}

fn module(path: &str, base: u64) -> ModuleRecord {
    ModuleRecord { name: units("payload.dll"), path: units(path), base }
}

fn machine(pid: u32, path: &str, mode: Mode) -> Orchestrator {
    Orchestrator::new(pid, WidePath::new(path).unwrap(), mode)
}

#[test]
fn inject_runs_open_alloc_write_spawn_join() {
    // Library path C:\payload.dll (14 characters), target pid 4242.
    let mut m = machine(4242, "C:\\payload.dll", Mode::Inject);
    assert_eq!(m.step(Event::Start), Step::Act(Action::OpenProcess { pid: 4242 }));
    // The region is sized to the NUL-terminated wide path: (14 + 1) * 2 bytes.
    assert_eq!(m.step(Event::Opened), Step::Act(Action::Allocate { size: 30 }));
    assert_eq!(
        m.step(Event::Allocated { base: 0x2000_0000 }),
        Step::Act(Action::Write { offset: 0, len: 30 })
    );
    assert_eq!(
        m.step(Event::Wrote),
        Step::Act(Action::Spawn { entry: EntryPoint::Loader, arg: 0x2000_0000 })
    );
    assert_eq!(m.step(Event::Spawned), Step::Act(Action::Join));
    assert_eq!(
        m.step(Event::Joined { code: 0x7FF8_1234 }),
        Step::Done(Ok(Outcome::Injected { exit: 0x7FF8_1234 }))
    );
    assert!(matches!(m.state, State::Finished));
}

#[test]
fn eject_of_absent_library_is_a_successful_no_op() {
    let mut m = machine(4242, "C:\\payload.dll", Mode::Eject);
    assert_eq!(m.step(Event::Start), Step::Act(Action::SnapshotModules { pid: 4242 }));
    // The target has other modules loaded, none with the resolved path.
    let modules = vec![module("C:\\Windows\\System32\\ntdll.dll", 0x7FFB_0000)];
    assert_eq!(m.step(Event::Modules { modules }), Step::Done(Ok(Outcome::NotLoaded)));
    assert!(matches!(m.state, State::Finished));
}

#[test]
fn eject_of_absent_library_from_empty_module_list() {
    let mut m = machine(4242, "C:\\payload.dll", Mode::Eject);
    m.step(Event::Start);
    assert_eq!(
        m.step(Event::Modules { modules: vec![] }),
        Step::Done(Ok(Outcome::NotLoaded))
    );
}

#[test]
fn eject_match_is_case_sensitive() {
    let mut m = machine(4242, "C:\\payload.dll", Mode::Eject);
    m.step(Event::Start);
    let modules = vec![module("c:\\payload.dll", 0x7FFA_0000)];
    assert_eq!(m.step(Event::Modules { modules }), Step::Done(Ok(Outcome::NotLoaded)));
}

#[test]
fn eject_of_loaded_library_unloads_at_its_base() {
    let mut m = machine(77, "C:\\payload.dll", Mode::Eject);
    assert_eq!(m.step(Event::Start), Step::Act(Action::SnapshotModules { pid: 77 }));
    let modules = vec![
        module("C:\\Windows\\System32\\ntdll.dll", 0x7FFB_0000),
        module("C:\\payload.dll", 0x7FFA_0000),
    ];
    assert_eq!(
        m.step(Event::Modules { modules }),
        Step::Act(Action::OpenProcess { pid: 77 })
    );
    assert_eq!(
        m.step(Event::Opened),
        Step::Act(Action::Spawn { entry: EntryPoint::Unloader, arg: 0x7FFA_0000 })
    );
    assert_eq!(m.step(Event::Spawned), Step::Act(Action::Join));
    assert_eq!(
        m.step(Event::Joined { code: 1 }),
        Step::Done(Ok(Outcome::Ejected { exit: 1 }))
    );
}

#[test]
fn eject_takes_the_first_of_two_matching_modules() {
    let mut m = machine(77, "C:\\payload.dll", Mode::Eject);
    m.step(Event::Start);
    let modules = vec![
        module("C:\\payload.dll", 0x1111_0000),
        module("C:\\payload.dll", 0x2222_0000),
    ];
    m.step(Event::Modules { modules });
    assert_eq!(
        m.step(Event::Opened),
        Step::Act(Action::Spawn { entry: EntryPoint::Unloader, arg: 0x1111_0000 })
    );
}

#[test]
fn reload_ejects_then_injects_against_same_pid_and_path() {
    let mut m = machine(4242, "C:\\payload.dll", Mode::Reload);
    assert_eq!(m.step(Event::Start), Step::Act(Action::SnapshotModules { pid: 4242 }));
    let modules = vec![module("C:\\payload.dll", 0x7FFA_0000)];
    // Eject half: its own process handle, its own remote thread.
    assert_eq!(
        m.step(Event::Modules { modules }),
        Step::Act(Action::OpenProcess { pid: 4242 })
    );
    assert_eq!(
        m.step(Event::Opened),
        Step::Act(Action::Spawn { entry: EntryPoint::Unloader, arg: 0x7FFA_0000 })
    );
    assert_eq!(m.step(Event::Spawned), Step::Act(Action::Join));
    // Eject's join completes before inject begins, with a second independent open.
    assert_eq!(
        m.step(Event::Joined { code: 1 }),
        Step::Act(Action::OpenProcess { pid: 4242 })
    );
    assert_eq!(m.step(Event::Opened), Step::Act(Action::Allocate { size: 30 }));
    assert_eq!(
        m.step(Event::Allocated { base: 0x3000 }),
        Step::Act(Action::Write { offset: 0, len: 30 })
    );
    assert_eq!(
        m.step(Event::Wrote),
        Step::Act(Action::Spawn { entry: EntryPoint::Loader, arg: 0x3000 })
    );
    assert_eq!(m.step(Event::Spawned), Step::Act(Action::Join));
    assert_eq!(
        m.step(Event::Joined { code: 0x7FF9_0000 }),
        Step::Done(Ok(Outcome::Injected { exit: 0x7FF9_0000 }))
    );
}

#[test]
fn reload_with_nothing_loaded_proceeds_straight_to_inject() {
    let mut m = machine(9, "C:\\payload.dll", Mode::Reload);
    m.step(Event::Start);
    assert_eq!(
        m.step(Event::Modules { modules: vec![] }),
        Step::Act(Action::OpenProcess { pid: 9 })
    );
    assert_eq!(m.step(Event::Opened), Step::Act(Action::Allocate { size: 30 }));
}

#[test]
fn zero_exit_code_from_the_loader_is_a_semantic_failure() {
    let mut m = machine(4242, "C:\\payload.dll", Mode::Inject);
    m.step(Event::Start);
    m.step(Event::Opened);
    m.step(Event::Allocated { base: 0x2000 });
    m.step(Event::Wrote);
    m.step(Event::Spawned);
    assert_eq!(
        m.step(Event::Joined { code: 0 }),
        Step::Done(Err(InjectError::SemanticFailure))
    );
}

#[test]
fn zero_exit_code_from_the_unloader_is_a_semantic_failure() {
    let mut m = machine(4242, "C:\\payload.dll", Mode::Eject);
    m.step(Event::Start);
    m.step(Event::Modules { modules: vec![module("C:\\payload.dll", 0x10)] });
    m.step(Event::Opened);
    m.step(Event::Spawned);
    assert_eq!(
        m.step(Event::Joined { code: 0 }),
        Step::Done(Err(InjectError::SemanticFailure))
    );
}

#[test]
fn denied_open_ends_with_access_error() {
    let mut m = machine(4242, "C:\\payload.dll", Mode::Inject);
    m.step(Event::Start);
    assert_eq!(m.step(Event::OpenFailed), Step::Done(Err(InjectError::Access)));
}

#[test]
fn failed_snapshot_ends_with_snapshot_error() {
    let mut m = machine(4242, "C:\\payload.dll", Mode::Eject);
    m.step(Event::Start);
    assert_eq!(m.step(Event::SnapshotFailed), Step::Done(Err(InjectError::Snapshot)));
}

#[test]
fn failed_allocation_ends_with_allocation_error() {
    let mut m = machine(4242, "C:\\payload.dll", Mode::Inject);
    m.step(Event::Start);
    m.step(Event::Opened);
    assert_eq!(m.step(Event::AllocFailed), Step::Done(Err(InjectError::Allocation)));
}

#[test]
fn failed_write_ends_with_write_error() {
    let mut m = machine(4242, "C:\\payload.dll", Mode::Inject);
    m.step(Event::Start);
    m.step(Event::Opened);
    m.step(Event::Allocated { base: 0x2000 });
    assert_eq!(m.step(Event::WriteFailed), Step::Done(Err(InjectError::Write)));
}

#[test]
fn failed_spawn_ends_with_spawn_error() {
    let mut m = machine(4242, "C:\\payload.dll", Mode::Inject);
    m.step(Event::Start);
    m.step(Event::Opened);
    m.step(Event::Allocated { base: 0x2000 });
    m.step(Event::Wrote);
    assert_eq!(m.step(Event::SpawnFailed), Step::Done(Err(InjectError::Spawn)));
}

#[test]
fn failed_join_ends_with_join_error() {
    let mut m = machine(4242, "C:\\payload.dll", Mode::Inject);
    m.step(Event::Start);
    m.step(Event::Opened);
    m.step(Event::Allocated { base: 0x2000 });
    m.step(Event::Wrote);
    m.step(Event::Spawned);
    assert_eq!(m.step(Event::JoinFailed), Step::Done(Err(InjectError::Join)));
}
