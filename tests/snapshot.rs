use procmem::snapshot::{
    decode_name, entry_size, ModuleSnapshot, ProcessSnapshot, RawModuleEntry, RawProcessEntry,
    SnapshotWalk,
};
use procmem::Error;

fn padded(text: &str, width: usize) -> Vec<u16> {
    let mut units: Vec<u16> = text.encode_utf16().collect();
    units.resize(width, 0);
    units
}

fn raw_process(id: u32, name: &str) -> RawProcessEntry {
    RawProcessEntry { id, exe_file: padded(name, 260) }
}

fn raw_module(name: &str, path: &str, base_address: usize, base_size: u32) -> RawModuleEntry {
    RawModuleEntry {
        module: padded(name, 256),
        exe_path: padded(path, 260),
        base_address,
        base_size,
    }
}

#[test]
fn decode_name_trims_trailing_padding() {
    assert_eq!(decode_name(&padded("game.exe", 260)), "game.exe");
    assert_eq!(decode_name(&[0, 0, 0]), "");
    assert_eq!(decode_name(&[]), "");
}

#[test]
fn decode_name_keeps_inner_nul() {
    let units = [0x61, 0, 0x62, 0, 0];
    assert_eq!(decode_name(&units), "a\0b");
}

#[test]
fn decode_name_replaces_invalid_units() {
    let units = [0x68, 0xD800, 0x69, 0];
    assert_eq!(decode_name(&units), "h\u{FFFD}i");
    let units: Vec<u16> = "héllo 😀".encode_utf16().chain([0, 0]).collect();
    assert_eq!(decode_name(&units), "héllo 😀");
}

#[test]
fn entry_size_fits() {
    assert_eq!(entry_size(568).unwrap(), 568);
    assert_eq!(entry_size(u32::MAX as usize).unwrap(), u32::MAX);
}

#[test]
fn entry_size_too_large() {
    if usize::BITS > 32 {
        let big = (u32::MAX as usize) + 1;
        assert!(matches!(entry_size(big), Err(Error::ConvertIntegerError(_))));
    }
}

#[test]
fn process_walk_failures() {
    let created = ProcessSnapshot::get_processes(SnapshotWalk::CreateFailed("denied".to_string()));
    assert!(matches!(created, Err(Error::CreateSnapshotError(_))));
    let first = ProcessSnapshot::get_processes(SnapshotWalk::FirstFailed("empty".to_string()));
    assert!(matches!(first, Err(Error::CreateSnapshotError(_))));
}

#[test]
fn process_walk_keeps_order() {
    let walk = SnapshotWalk::Walked(
        raw_process(4, "System"),
        vec![raw_process(812, "svchost.exe"), raw_process(9120, "game.exe")],
    );
    let processes = ProcessSnapshot::get_processes(walk).unwrap();
    let seen: Vec<(u32, &str)> = processes.iter().map(|p| (p.id, p.name.as_str())).collect();
    assert_eq!(seen, vec![(4, "System"), (812, "svchost.exe"), (9120, "game.exe")]);
}

#[test]
fn module_walk_failures() {
    let created = ModuleSnapshot::get_modules(SnapshotWalk::CreateFailed("gone".to_string()));
    assert!(matches!(created, Err(Error::CreateSnapshotError(_))));
    let first = ModuleSnapshot::get_modules(SnapshotWalk::FirstFailed("empty".to_string()));
    assert!(matches!(first, Err(Error::CreateSnapshotError(_))));
}

#[test]
fn module_walk_decodes_entries() {
    let walk = SnapshotWalk::Walked(
        raw_module("game.exe", "C:\\Games\\game.exe", 0x7ff6_0000_0000, 0x5000),
        vec![raw_module("KERNEL32.DLL", "C:\\Windows\\System32\\KERNEL32.DLL", 0x7ffa_0000_0000, 0xC4000)],
    );
    let modules = ModuleSnapshot::get_modules(walk).unwrap();
    assert_eq!(modules.len(), 2);
    assert_eq!(modules[0].name, "game.exe");
    assert_eq!(modules[0].path, "C:\\Games\\game.exe");
    assert_eq!(modules[0].base_address, 0x7ff6_0000_0000);
    assert_eq!(modules[0].base_size, 0x5000);
    assert_eq!(modules[1].name, "KERNEL32.DLL");
    assert_eq!(modules[1].base_size, 0xC4000);
}
