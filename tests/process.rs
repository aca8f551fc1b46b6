use procmem::process::{
    Access, Handle, Identifier, OpenStep, Process, INVALID_HANDLE_VALUE, PROCESS_ALL_ACCESS,
    PROCESS_VM_READ, PROCESS_VM_WRITE,
};
use procmem::snapshot::{ModuleSnapshot, ProcessSnapshot};
use procmem::Error;

fn entry(id: u32, name: &str) -> ProcessSnapshot {
    ProcessSnapshot { id, name: name.to_string() }
}

fn processes() -> Vec<ProcessSnapshot> {
    vec![entry(4, "System"), entry(812, "svchost.exe"), entry(9120, "game.exe"), entry(9300, "game.exe")]
}

fn module(name: &str, base_address: usize) -> ModuleSnapshot {
    ModuleSnapshot {
        name: name.to_string(),
        path: format!("C:\\Programs\\{name}"),
        base_address,
        base_size: 0x1000,
    }
}

fn modules() -> Vec<ModuleSnapshot> {
    vec![
        module("GAME.EXE", 0x7ff6_0000_0000),
        module("ntdll.dll", 0x7ffa_1000_0000),
        module("game.exe", 0x1234),
    ]
}

fn game() -> Process {
    let found = Process::find(&Identifier::from(9120u32), processes()).unwrap();
    Process::from(found, Handle(0x2c4), modules()).unwrap()
}

#[test]
fn identifier_conversions() {
    assert!(matches!(Identifier::from(77u32), Identifier::Pid(77)));
    match Identifier::from("game.exe") {
        Identifier::Name(name) => assert_eq!(name, "game.exe"),
        other => panic!("unexpected {other:?}"),
    }
}

#[test]
fn find_by_pid() {
    let found = Process::find(&Identifier::Pid(812), processes()).unwrap();
    assert_eq!(found.id, 812);
    assert_eq!(found.name, "svchost.exe");
}

#[test]
fn find_by_name_takes_first_match() {
    let found = Process::find(&Identifier::Name("game.exe".to_string()), processes()).unwrap();
    assert_eq!(found.id, 9120);
}

#[test]
fn find_by_name_is_case_sensitive() {
    let result = Process::find(&Identifier::Name("GAME.EXE".to_string()), processes());
    assert!(matches!(result, Err(Error::ProcessError(_))));
}

#[test]
fn find_missing_process_fails() {
    assert!(matches!(Process::find(&Identifier::Pid(1), processes()), Err(Error::ProcessError(_))));
    assert!(matches!(Process::find(&Identifier::Pid(1), Vec::new()), Err(Error::ProcessError(_))));
}

#[test]
fn from_takes_main_module_base_case_insensitively() {
    let process = game();
    assert_eq!(process.id, 9120);
    assert_eq!(process.name, "game.exe");
    assert_eq!(process.base_address, 0x7ff6_0000_0000);
    assert_eq!(process.handle.0, 0x2c4);
}

#[test]
fn from_without_main_module_fails() {
    let result = Process::from(entry(812, "svchost.exe"), Handle(8), modules());
    assert!(matches!(result, Err(Error::ProcessError(_))));
}

#[test]
fn find_by_pid_and_by_name_agree() {
    let by_pid = Process::find(&Identifier::Pid(9120), processes()).unwrap();
    let by_name = Process::find(&Identifier::from("game.exe"), processes()).unwrap();
    let a = Process::from(by_pid, Handle(1), modules()).unwrap();
    let b = Process::from(by_name, Handle(2), modules()).unwrap();
    assert_eq!(a.id, b.id);
    assert_eq!(a.base_address, b.base_address);
}

#[test]
fn own_module_matches_base_address() {
    let process = game();
    let all = process.modules(modules());
    assert_eq!(all.len(), 3);
    let name = process.name.clone();
    let own = process.module(modules(), &name).unwrap();
    assert_eq!(own.base_address, process.base_address);
    assert_eq!(own.process_id, process.id);
}

#[test]
fn module_lookup_ignores_ascii_case() {
    let process = game();
    let found = process.module(modules(), "NTDLL.dll").unwrap();
    assert_eq!(found.name, "ntdll.dll");
    assert_eq!(found.path, "C:\\Programs\\ntdll.dll");
    assert_eq!(found.base_address, 0x7ffa_1000_0000);
    assert_eq!(found.base_size, 0x1000);
    assert_eq!(found.process_id, 9120);
}

#[test]
fn missing_module_fails() {
    let process = game();
    let result = process.module(modules(), "missing.dll");
    assert!(matches!(result, Err(Error::ProcessError(_))));
    let result = process.module(modules(), "ntdll.dl");
    assert!(matches!(result, Err(Error::ProcessError(_))));
}

#[test]
fn modules_maps_every_entry() {
    let process = game();
    let all = process.modules(modules());
    let seen: Vec<(&str, usize, u32)> =
        all.iter().map(|m| (m.name.as_str(), m.base_address, m.process_id)).collect();
    assert_eq!(
        seen,
        vec![("GAME.EXE", 0x7ff6_0000_0000, 9120), ("ntdll.dll", 0x7ffa_1000_0000, 9120), ("game.exe", 0x1234, 9120)]
    );
    assert!(process.modules(Vec::new()).is_empty());
}

#[test]
fn access_rights() {
    assert_eq!(Access::Full.rights(), PROCESS_ALL_ACCESS);
    assert_eq!(Access::Full.rights(), 0x001F_FFFF);
    assert_eq!(Access::ReadWrite.rights(), PROCESS_VM_READ | PROCESS_VM_WRITE);
    assert_eq!(Access::ReadWrite.rights(), 0x30);
    assert!(matches!(Handle::first_attempt(), Access::Full));
}

#[test]
fn open_falls_back_to_read_write() {
    let step = Handle::open_step(Access::Full, Err("access denied".to_string()));
    assert!(matches!(step, OpenStep::Request(Access::ReadWrite)));
}

#[test]
fn open_fails_after_fallback() {
    let step = Handle::open_step(Access::ReadWrite, Err("access denied".to_string()));
    assert!(matches!(step, OpenStep::Failed(Error::ObtainHandleError(_))));
}

#[test]
fn open_rejects_invalid_handle() {
    let step = Handle::open_step(Access::Full, Ok(INVALID_HANDLE_VALUE));
    assert!(matches!(step, OpenStep::Failed(Error::ObtainHandleError(_))));
    let step = Handle::open_step(Access::ReadWrite, Ok(-1));
    assert!(matches!(step, OpenStep::Failed(Error::ObtainHandleError(_))));
}

#[test]
fn open_succeeds() {
    assert!(matches!(Handle::open_step(Access::Full, Ok(0x2c4)), OpenStep::Opened(Handle(0x2c4))));
    assert!(matches!(Handle::open_step(Access::ReadWrite, Ok(0x18)), OpenStep::Opened(Handle(0x18))));
}
