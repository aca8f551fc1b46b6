use vstd::prelude::*;

use crate::error::Error;
use crate::snapshot::{ModuleSnapshot, ProcessSnapshot};

verus! {

/// An identifier for searching for a process.
#[derive(Debug)]
pub enum Identifier {
    /// process id to search for
    Pid(u32),
    /// process name to search for, compared exactly (case-sensitive)
    Name(String),
}

impl From<u32> for Identifier {
    fn from(value: u32) -> (r: Identifier) {
        Identifier::Pid(value)
    }
}

impl vstd::std_specs::convert::FromSpecImpl<u32> for Identifier {
    open spec fn obeys_from_spec() -> bool {
        true
    }

    open spec fn from_spec(v: u32) -> Identifier {
        Identifier::Pid(v)
    }
}

impl<'a> From<&'a str> for Identifier {
    fn from(value: &'a str) -> (r: Identifier) {
        Identifier::Name(value.to_owned())
    }
}

// Two `String`s with the same text are not known to be the same value, so
// the conversion promises nothing beyond its type here; `Identifier::Name`
// states the name exactly where a contract needs it.
impl<'a> vstd::std_specs::convert::FromSpecImpl<&'a str> for Identifier {
    open spec fn obeys_from_spec() -> bool {
        false
    }

    open spec fn from_spec(v: &'a str) -> Identifier {
        Identifier::Name(choose|s: String| s@ == v@)
    }
}

/// The operating system's token for an open process. A handle that
/// `Handle::open_step` hands out never holds `INVALID_HANDLE_VALUE`.
#[derive(Debug)]
pub struct Handle(pub isize);

/// The token value that marks an invalid handle.
pub const INVALID_HANDLE_VALUE: isize = -1;

/// Access right: everything the target process grants.
pub const PROCESS_ALL_ACCESS: u32 = 0x001F_FFFF;

/// Access right: reading the target's memory.
pub const PROCESS_VM_READ: u32 = 0x0010;

/// Access right: writing the target's memory.
pub const PROCESS_VM_WRITE: u32 = 0x0020;

/// The access that an attempt to open a process asks for.
#[derive(Debug)]
pub enum Access {
    /// the broadest rights
    Full,
    /// only what memory reads and writes need
    ReadWrite,
}

impl Access {
    /// The access-rights mask that this attempt asks for.
    pub fn rights(&self) -> (r: u32)
        ensures
            *self is Full ==> r == PROCESS_ALL_ACCESS,
            *self is ReadWrite ==> r == PROCESS_VM_READ | PROCESS_VM_WRITE,
    {
        match self {
            Access::Full => PROCESS_ALL_ACCESS,
            Access::ReadWrite => PROCESS_VM_READ | PROCESS_VM_WRITE,
        }
    }
}

/// What to do next while opening a process.
#[derive(Debug)]
pub enum OpenStep {
    /// Ask the operating system again, with this access.
    Request(Access),
    /// The process is open.
    Opened(Handle),
    /// Opening failed.
    Failed(Error),
}

impl Handle {
    /// The first attempt to open a process asks for the broadest rights.
    pub fn first_attempt() -> (r: Access)
        ensures
            r is Full,
    {
        Access::Full
    }

    /// Decides what follows an attempt to open a process with `attempt`'s
    /// rights, which gave `outcome` (a token, or the operating system's
    /// reason for refusing). A refused broad request is retried once with
    /// read/write rights only; a refused retry, or a token equal to the
    /// invalid marker, fails.
    pub fn open_step(attempt: Access, outcome: Result<isize, String>) -> (r: OpenStep)
        ensures
            outcome is Err && attempt is Full ==> r matches OpenStep::Request(Access::ReadWrite),
            outcome is Err && attempt is ReadWrite ==> r matches OpenStep::Failed(
                Error::ObtainHandleError(_),
            ),
            outcome is Ok && outcome->Ok_0 == INVALID_HANDLE_VALUE ==> r matches OpenStep::Failed(
                Error::ObtainHandleError(_),
            ),
            outcome is Ok && outcome->Ok_0 != INVALID_HANDLE_VALUE ==> r == OpenStep::Opened(
                Handle(outcome->Ok_0),
            ),
    {
        match outcome {
            Ok(h) => {
                if h == INVALID_HANDLE_VALUE {
                    OpenStep::Failed(
                        Error::ObtainHandleError("could not get a valid handle".to_owned()),
                    )
                } else {
                    OpenStep::Opened(Handle(h))
                }
            },
            Err(cause) => match attempt {
                Access::Full => OpenStep::Request(Access::ReadWrite),
                Access::ReadWrite => OpenStep::Failed(Error::ObtainHandleError(cause)),
            },
        }
    }
}

/// A process running on the system, with its main module's load address.
#[derive(Debug)]
pub struct Process {
    /// the process name
    pub name: String,
    /// the process id
    pub id: u32,
    /// the base address of the module named `name`
    pub base_address: usize,
    /// the process handle
    pub handle: Handle,
}

/// A module loaded within a process: a snapshot, not kept in sync.
#[derive(Debug)]
pub struct Module {
    /// the parent process id
    pub process_id: u32,
    /// the module name
    pub name: String,
    /// the module's file path
    pub path: String,
    /// the module base address
    pub base_address: usize,
    /// the module base size
    pub base_size: usize,
}

/// `p` is the process that `id` names.
pub open spec fn identifies(id: Identifier, p: ProcessSnapshot) -> bool {
    match id {
        Identifier::Pid(pid) => p.id == pid,
        Identifier::Name(name) => p.name@ == name@,
    }
}

/// `i` is the first position in `ps` of a process that `id` names.
pub open spec fn first_identified(id: Identifier, ps: Seq<ProcessSnapshot>, i: int) -> bool {
    &&& 0 <= i < ps.len()
    &&& identifies(id, ps[i])
    &&& forall|j: int| 0 <= j < i ==> !identifies(id, #[trigger] ps[j])
}

/// The first process of the list that `id` names, if any.
pub open spec fn process_lookup(id: Identifier, ps: Seq<ProcessSnapshot>) -> Option<
    ProcessSnapshot,
> {
    if exists|i: int| first_identified(id, ps, i) {
        Some(ps[choose|i: int| first_identified(id, ps, i)])
    } else {
        None
    }
}

/// ASCII letters folded to lower case; every other byte as it is.
pub open spec fn ascii_lower(b: u8) -> u8 {
    if 65 <= b <= 90 {
        (b + 32) as u8
    } else {
        b
    }
}

/// Two byte strings are equal but for the case of ASCII letters.
pub open spec fn eq_ignore_ascii_case(a: Seq<u8>, b: Seq<u8>) -> bool {
    &&& a.len() == b.len()
    &&& forall|i: int| 0 <= i < a.len() ==> ascii_lower(#[trigger] a[i]) == ascii_lower(b[i])
}

/// `m` is named `name`, ignoring the case of ASCII letters.
pub open spec fn module_named(m: ModuleSnapshot, name: Seq<char>) -> bool {
    eq_ignore_ascii_case(
        vstd::utf8::encode_utf8(name),
        vstd::utf8::encode_utf8(m.name@),
    )
}

/// `i` is the first position in `ms` of a module named `name`.
pub open spec fn first_named(ms: Seq<ModuleSnapshot>, name: Seq<char>, i: int) -> bool {
    &&& 0 <= i < ms.len()
    &&& module_named(ms[i], name)
    &&& forall|j: int| 0 <= j < i ==> !module_named(#[trigger] ms[j], name)
}

/// The module that a snapshot entry describes, as a module of process `pid`.
pub open spec fn module_of(pid: u32, s: ModuleSnapshot) -> Module {
    Module {
        process_id: pid,
        name: s.name,
        path: s.path,
        base_address: s.base_address,
        base_size: s.base_size,
    }
}

/// The first module of the list named `name` (ignoring ASCII case), as a
/// module of process `pid`, if any.
pub open spec fn module_lookup(pid: u32, ms: Seq<ModuleSnapshot>, name: Seq<char>) -> Option<
    Module,
> {
    if exists|i: int| first_named(ms, name, i) {
        Some(module_of(pid, ms[choose|i: int| first_named(ms, name, i)]))
    } else {
        None
    }
}

/// The process that a snapshot entry, an open handle and the process's
/// modules make: its base address is that of its own main module, and
/// there is none where no module bears the process's name.
pub open spec fn process_built(entry: ProcessSnapshot, handle: Handle, ms: Seq<ModuleSnapshot>) -> Option<Process> {
    match module_lookup(entry.id, ms, entry.name@) {
        Some(m) => Some(
            Process { name: entry.name, id: entry.id, base_address: m.base_address, handle },
        ),
        None => None,
    }
}

/// Whether two strings are equal but for the case of ASCII letters.
fn names_match(a: &str, b: &str) -> (r: bool)
    ensures
        r == eq_ignore_ascii_case(vstd::utf8::encode_utf8(a@), vstd::utf8::encode_utf8(b@)),
{
    let x = a.as_bytes();
    let y = b.as_bytes();
    if x.len() != y.len() {
        return false;
    }
    let mut i: usize = 0;
    while i < x.len()
        invariant
            x@ == vstd::utf8::encode_utf8(a@),
            y@ == vstd::utf8::encode_utf8(b@),
            x@.len() == y@.len(),
            i <= x@.len(),
            forall|k: int| 0 <= k < i ==> ascii_lower(#[trigger] x@[k]) == ascii_lower(y@[k]),
        decreases x@.len() - i,
    {
        let p = x[i];
        let q = y[i];
        let lp = if 65 <= p && p <= 90 {
            p + 32
        } else {
            p
        };
        let lq = if 65 <= q && q <= 90 {
            q + 32
        } else {
            q
        };
        if lp != lq {
            return false;
        }
        i = i + 1;
    }
    true
}

/// Position of the first module named `name`, ignoring ASCII case.
fn find_module(ms: &Vec<ModuleSnapshot>, name: &str) -> (r: Option<usize>)
    ensures
        r matches Some(i) ==> first_named(ms@, name@, i as int),
        r is None ==> forall|j: int| 0 <= j < ms@.len() ==> !module_named(#[trigger] ms@[j], name@),
{
    let mut i: usize = 0;
    while i < ms.len()
        invariant
            i <= ms@.len(),
            forall|j: int| 0 <= j < i ==> !module_named(#[trigger] ms@[j], name@),
        decreases ms@.len() - i,
    {
        if names_match(name, ms[i].name.as_str()) {
            return Some(i);
        }
        i = i + 1;
    }
    None
}

/// There is at most one first position of a named module.
proof fn lemma_first_named_unique(ms: Seq<ModuleSnapshot>, name: Seq<char>, i: int, j: int)
    requires
        first_named(ms, name, i),
        first_named(ms, name, j),
    ensures
        i == j,
{
}

/// There is at most one first position of an identified process.
proof fn lemma_first_identified_unique(id: Identifier, ps: Seq<ProcessSnapshot>, i: int, j: int)
    requires
        first_identified(id, ps, i),
        first_identified(id, ps, j),
    ensures
        i == j,
{
}

/// Finding a process by its id and finding it by its exact name, where both
/// searches land on the same process, give processes with the same id and
/// the same base address (given the same module snapshot): one succeeds
/// exactly when the other does.
pub proof fn lemma_find_by_id_and_name_agree(
    processes: Seq<ProcessSnapshot>,
    pid: u32,
    name: String,
    by_id: Handle,
    by_name: Handle,
    modules: Seq<ModuleSnapshot>,
)
    requires
        process_lookup(Identifier::Pid(pid), processes) is Some,
        process_lookup(Identifier::Name(name), processes) is Some,
        process_lookup(Identifier::Pid(pid), processes)->Some_0.id == process_lookup(
            Identifier::Name(name),
            processes,
        )->Some_0.id,
        process_lookup(Identifier::Pid(pid), processes)->Some_0.name@ == process_lookup(
            Identifier::Name(name),
            processes,
        )->Some_0.name@,
    ensures
        ({
            let a = process_built(
                process_lookup(Identifier::Pid(pid), processes)->Some_0,
                by_id,
                modules,
            );
            let b = process_built(
                process_lookup(Identifier::Name(name), processes)->Some_0,
                by_name,
                modules,
            );
            &&& a is Some <==> b is Some
            &&& a is Some ==> a->Some_0.id == b->Some_0.id && a->Some_0.base_address
                == b->Some_0.base_address
        }),
{
}

/// Looking up a process's own name among its modules, ignoring ASCII case,
/// succeeds and gives a module whose base address is the process's own.
pub proof fn lemma_own_module_has_base_address(
    entry: ProcessSnapshot,
    handle: Handle,
    modules: Seq<ModuleSnapshot>,
)
    requires
        process_built(entry, handle, modules) is Some,
    ensures
        ({
            let p = process_built(entry, handle, modules)->Some_0;
            &&& module_lookup(p.id, modules, p.name@) is Some
            &&& module_lookup(p.id, modules, p.name@)->Some_0.base_address == p.base_address
            &&& module_lookup(p.id, modules, p.name@)->Some_0.process_id == p.id
        }),
{
}

impl Process {
    /// The first process of a snapshot that `identifier` names: by id, or
    /// by exact (case-sensitive) name. Fails where none does.
    pub fn find(identifier: &Identifier, processes: Vec<ProcessSnapshot>) -> (r: Result<
        ProcessSnapshot,
        Error,
    >)
        ensures
            process_lookup(*identifier, processes@) matches Some(p) ==> r == Ok::<
                ProcessSnapshot,
                Error,
            >(p),
            process_lookup(*identifier, processes@) is None ==> r matches Err(
                Error::ProcessError(_),
            ),
    {
        let ghost ps = processes@;
        let mut list = processes;
        let mut i: usize = 0;
        while i < list.len()
            invariant
                list@ == ps,
                processes@ == ps,
                i <= ps.len(),
                forall|j: int| 0 <= j < i ==> !identifies(*identifier, #[trigger] ps[j]),
            decreases ps.len() - i,
        {
            let hit = match identifier {
                Identifier::Pid(pid) => list[i].id == *pid,
                Identifier::Name(name) => list[i].name == *name,
            };
            if hit {
                proof {
                    assert(first_identified(*identifier, ps, i as int));
                    let c = choose|k: int| first_identified(*identifier, ps, k);
                    lemma_first_identified_unique(*identifier, ps, i as int, c);
                    assert(process_lookup(*identifier, ps) == Some(ps[i as int]));
                }
                return Ok(list.remove(i));
            }
            i = i + 1;
        }
        proof {
            assert(process_lookup(*identifier, ps) is None);
        }
        Err(Error::ProcessError("no process matches the identifier".to_owned()))
    }

    /// The process that a snapshot entry, an open handle to it and its
    /// modules make, with the base address of its main module (the module
    /// that bears the process's own name). Fails where there is no such
    /// module.
    pub fn from(entry: ProcessSnapshot, handle: Handle, modules: Vec<ModuleSnapshot>) -> (r: Result<
        Process,
        Error,
    >)
        ensures
            process_built(entry, handle, modules@) matches Some(p) ==> r == Ok::<Process, Error>(
                p,
            ),
            process_built(entry, handle, modules@) is None ==> r matches Err(
                Error::ProcessError(_),
            ),
    {
        match find_module(&modules, entry.name.as_str()) {
            Some(i) => {
                proof {
                    let c = choose|k: int| first_named(modules@, entry.name@, k);
                    lemma_first_named_unique(modules@, entry.name@, i as int, c);
                }
                let base_address = modules[i].base_address;
                Ok(Process { name: entry.name, id: entry.id, base_address, handle })
            },
            None => Err(Error::ProcessError("the process has no main module".to_owned())),
        }
    }

    /// The first of this process's modules named `name`, ignoring the case
    /// of ASCII letters. Fails where none is.
    pub fn module(&self, modules: Vec<ModuleSnapshot>, name: &str) -> (r: Result<Module, Error>)
        ensures
            module_lookup(self.id, modules@, name@) matches Some(m) ==> r == Ok::<Module, Error>(
                m,
            ),
            module_lookup(self.id, modules@, name@) is None ==> r matches Err(
                Error::ProcessError(_),
            ),
    {
        let ghost ms = modules@;
        let mut list = modules;
        match find_module(&list, name) {
            Some(i) => {
                proof {
                    let c = choose|k: int| first_named(ms, name@, k);
                    lemma_first_named_unique(ms, name@, i as int, c);
                }
                let s = list.remove(i);
                Ok(
                    Module {
                        process_id: self.id,
                        name: s.name,
                        path: s.path,
                        base_address: s.base_address,
                        base_size: s.base_size,
                    },
                )
            },
            None => Err(Error::ProcessError("no module bears that name".to_owned())),
        }
    }

    /// All of this process's modules, one for each snapshot entry, in order.
    pub fn modules(&self, modules: Vec<ModuleSnapshot>) -> (r: Vec<Module>)
        ensures
            r@.len() == modules@.len(),
            forall|i: int| 0 <= i < r@.len() ==> #[trigger] r@[i] == module_of(self.id, modules@[i]),
    {
        let ghost ms = modules@;
        let mut rest = modules;
        let mut out: Vec<Module> = Vec::new();
        while rest.len() > 0
            invariant
                out@.len() + rest@.len() == ms.len(),
                rest@ == ms.subrange(out@.len() as int, ms.len() as int),
                forall|i: int| 0 <= i < out@.len() ==> #[trigger] out@[i] == module_of(self.id, ms[i]),
            decreases rest@.len(),
        {
            let s = rest.remove(0);
            assert(s == ms[out@.len() as int]);
            out.push(
                Module {
                    process_id: self.id,
                    name: s.name,
                    path: s.path,
                    base_address: s.base_address,
                    base_size: s.base_size,
                },
            );
            assert(rest@ =~= ms.subrange(out@.len() as int, ms.len() as int));
        }
        out
    }
}

} // verus!
