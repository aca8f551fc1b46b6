use vstd::prelude::*;

use crate::error::Error;

verus! {

/// What `String::from_utf16_lossy` yields for these UTF-16 code units.
pub uninterp spec fn utf16_lossy(units: Seq<u16>) -> Seq<char>;

/// Relies on `String::from_utf16_lossy`: decodes UTF-16, putting U+FFFD in
/// place of invalid sequences; the text depends on the code units alone.
#[verifier::external_body]
fn decode_utf16(units: &[u16]) -> (r: String)
    ensures
        r@ == utf16_lossy(units@),
        units@.len() == 0 ==> r@.len() == 0,
{
    String::from_utf16_lossy(units)
}

/// A fixed-width text buffer without its trailing NUL padding.
pub open spec fn trim_nul(units: Seq<u16>) -> Seq<u16>
    decreases units.len(),
{
    if units.len() > 0 && units.last() == 0 {
        trim_nul(units.drop_last())
    } else {
        units
    }
}

/// The text of a NUL-padded UTF-16 buffer.
pub open spec fn buffer_text(units: Seq<u16>) -> Seq<char> {
    utf16_lossy(trim_nul(units))
}

/// Decodes a fixed-width, NUL-padded UTF-16 buffer into its text, trailing
/// padding removed.
pub fn decode_name(buffer: &[u16]) -> (r: String)
    ensures
        r@ == buffer_text(buffer@),
{
    let mut end: usize = buffer.len();
    assert(buffer@.subrange(0, end as int) =~= buffer@);
    while end > 0 && buffer[end - 1] == 0
        invariant
            end <= buffer@.len(),
            trim_nul(buffer@) == trim_nul(buffer@.subrange(0, end as int)),
        decreases end,
    {
        assert(buffer@.subrange(0, end as int).drop_last() =~= buffer@.subrange(
            0,
            end - 1,
        ));
        end = end - 1;
    }
    assert(trim_nul(buffer@.subrange(0, end as int)) == buffer@.subrange(0, end as int));
    decode_utf16(&buffer[0..end])
}

/// The size field of a snapshot entry: the entry's size as a 32-bit value.
pub fn entry_size(size: usize) -> (r: Result<u32, Error>)
    ensures
        size <= u32::MAX ==> r == Ok::<u32, Error>(size as u32),
        size > u32::MAX ==> r matches Err(Error::ConvertIntegerError(_)),
{
    if size <= 0xFFFF_FFFF {
        Ok(size as u32)
    } else {
        Err(Error::ConvertIntegerError("entry size does not fit in 32 bits".to_owned()))
    }
}

/// How a walk over a snapshot went: the snapshot could not be created, its
/// first entry could not be fetched, or it gave a first entry and then the
/// entries that followed, in order, until it reported exhaustion.
#[derive(Debug)]
pub enum SnapshotWalk<E> {
    /// the snapshot could not be created, for this reason
    CreateFailed(String),
    /// the snapshot gave no first entry, for this reason
    FirstFailed(String),
    /// the first entry, then the others in order
    Walked(E, Vec<E>),
}

/// The entries of a walk that got past its first entry, in order.
pub open spec fn walked_entries<E>(first: E, rest: Seq<E>) -> Seq<E> {
    seq![first] + rest
}

/// A process entry as the operating system fills it in.
#[derive(Debug)]
pub struct RawProcessEntry {
    /// the process id
    pub id: u32,
    /// the executable's file name, NUL-padded
    pub exe_file: Vec<u16>,
}

/// A module entry as the operating system fills it in.
#[derive(Debug)]
pub struct RawModuleEntry {
    /// the module name, NUL-padded
    pub module: Vec<u16>,
    /// the module's file path, NUL-padded
    pub exe_path: Vec<u16>,
    /// where the module is loaded
    pub base_address: usize,
    /// how many bytes the module spans
    pub base_size: u32,
}

/// A process found in a snapshot.
#[derive(Debug)]
pub struct ProcessSnapshot {
    /// the process id
    pub id: u32,
    /// the executable's file name
    pub name: String,
}

/// A module found in a snapshot of one process.
#[derive(Debug)]
pub struct ModuleSnapshot {
    /// the module name
    pub name: String,
    /// the module's file path
    pub path: String,
    /// where the module is loaded
    pub base_address: usize,
    /// how many bytes the module spans
    pub base_size: usize,
}

/// `p` is what the raw entry `e` describes.
pub open spec fn process_decoded(p: ProcessSnapshot, e: RawProcessEntry) -> bool {
    p.id == e.id && p.name@ == buffer_text(e.exe_file@)
}

/// `m` is what the raw entry `e` describes.
pub open spec fn module_decoded(m: ModuleSnapshot, e: RawModuleEntry) -> bool {
    &&& m.name@ == buffer_text(e.module@)
    &&& m.path@ == buffer_text(e.exe_path@)
    &&& m.base_address == e.base_address
    &&& m.base_size == e.base_size
}

impl ProcessSnapshot {
    /// The process that a raw entry describes.
    pub fn from_entry(entry: &RawProcessEntry) -> (r: ProcessSnapshot)
        ensures
            process_decoded(r, *entry),
    {
        ProcessSnapshot { id: entry.id, name: decode_name(entry.exe_file.as_slice()) }
    }

    /// The processes of a system-wide snapshot walk, in enumeration order.
    /// Fails, with no partial list, where the snapshot could not be created
    /// or gave no first entry.
    pub fn get_processes(walk: SnapshotWalk<RawProcessEntry>) -> (r: Result<
        Vec<ProcessSnapshot>,
        Error,
    >)
        ensures
            walk is CreateFailed ==> r matches Err(Error::CreateSnapshotError(_)),
            walk is FirstFailed ==> r matches Err(Error::CreateSnapshotError(_)),
            walk matches SnapshotWalk::Walked(first, rest) ==> r matches Ok(v) && {
                let es = walked_entries(first, rest@);
                &&& v@.len() == es.len()
                &&& forall|i: int| 0 <= i < es.len() ==> process_decoded(#[trigger] v@[i], es[i])
            },
    {
        match walk {
            SnapshotWalk::CreateFailed(cause) => Err(Error::CreateSnapshotError(cause)),
            SnapshotWalk::FirstFailed(cause) => Err(Error::CreateSnapshotError(cause)),
            SnapshotWalk::Walked(first, rest) => {
                let ghost es = walked_entries(first, rest@);
                let mut processes: Vec<ProcessSnapshot> = Vec::new();
                processes.push(ProcessSnapshot::from_entry(&first));
                let mut i: usize = 0;
                while i < rest.len()
                    invariant
                        i <= rest@.len(),
                        es == walked_entries(first, rest@),
                        processes@.len() == i + 1,
                        forall|k: int| 0 <= k <= i ==> process_decoded(#[trigger] processes@[k], es[k]),
                    decreases rest@.len() - i,
                {
                    processes.push(ProcessSnapshot::from_entry(&rest[i]));
                    i = i + 1;
                }
                Ok(processes)
            },
        }
    }
}

impl ModuleSnapshot {
    /// The module that a raw entry describes.
    pub fn from_entry(entry: &RawModuleEntry) -> (r: ModuleSnapshot)
        ensures
            module_decoded(r, *entry),
    {
        ModuleSnapshot {
            name: decode_name(entry.module.as_slice()),
            path: decode_name(entry.exe_path.as_slice()),
            base_address: entry.base_address,
            base_size: entry.base_size as usize,
        }
    }

    /// The modules (32- and 64-bit) of a snapshot walk scoped to one process,
    /// in enumeration order. Fails, with no partial list, where the snapshot
    /// could not be created (the process is gone, or access was denied) or
    /// gave no first entry.
    pub fn get_modules(walk: SnapshotWalk<RawModuleEntry>) -> (r: Result<
        Vec<ModuleSnapshot>,
        Error,
    >)
        ensures
            walk is CreateFailed ==> r matches Err(Error::CreateSnapshotError(_)),
            walk is FirstFailed ==> r matches Err(Error::CreateSnapshotError(_)),
            walk matches SnapshotWalk::Walked(first, rest) ==> r matches Ok(v) && {
                let es = walked_entries(first, rest@);
                &&& v@.len() == es.len()
                &&& forall|i: int| 0 <= i < es.len() ==> module_decoded(#[trigger] v@[i], es[i])
            },
    {
        match walk {
            SnapshotWalk::CreateFailed(cause) => Err(Error::CreateSnapshotError(cause)),
            SnapshotWalk::FirstFailed(cause) => Err(Error::CreateSnapshotError(cause)),
            SnapshotWalk::Walked(first, rest) => {
                let ghost es = walked_entries(first, rest@);
                let mut modules: Vec<ModuleSnapshot> = Vec::new();
                modules.push(ModuleSnapshot::from_entry(&first));
                let mut i: usize = 0;
                while i < rest.len()
                    invariant
                        i <= rest@.len(),
                        es == walked_entries(first, rest@),
                        modules@.len() == i + 1,
                        forall|k: int| 0 <= k <= i ==> module_decoded(#[trigger] modules@[k], es[k]),
                    decreases rest@.len() - i,
                {
                    modules.push(ModuleSnapshot::from_entry(&rest[i]));
                    i = i + 1;
                }
                Ok(modules)
            },
        }
    }
}

} // verus!
