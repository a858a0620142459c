//! The in-memory form of a replayable program.
use vstd::prelude::*;

verus! {

/// The identifier of a recorded system call.
#[derive(Clone, Copy, Debug, PartialEq, Eq, Structural)]
pub enum SysNo {
    Open,
    Read,
    Write,
    Lseek,
    Getdents,
    Pread,
    Pwrite,
    Fstat,
    Stat,
    Lstat,
    Rename,
    Fsync,
    Fdatasync,
    Syncfs,
    Sendfile,
    Access,
    Ftruncate,
    Truncate,
    Mkdir,
    Rmdir,
    Link,
    Unlink,
    Symlink,
    Setxattr,
    Getxattr,
    Removexattr,
    Listxattr,
}

/// One positional argument of a syscall: a literal, or a reference into the
/// program's variable table.
#[derive(Clone, Copy, Debug, PartialEq, Eq, Structural)]
pub struct Arg {
    pub value: Option<i64>,
    pub index: Option<usize>,
    pub is_variable: bool,
}

/// A value of the variable table.
#[derive(Clone, Debug)]
pub enum VariableType {
    Long(i64),
    Str(String),
    /// A byte buffer: its contents, if any were recorded, and its declared size.
    UCharPtr(Option<Vec<u8>>, u32),
    VoidPtr,
    MmapBase,
    Unknown,
}

/// The mathematical value of a [`VariableType`].
pub ghost enum Value {
    Long(i64),
    Str(Seq<char>),
    Buffer(Option<Seq<u8>>, u32),
    VoidPtr,
    MmapBase,
    Unknown,
}

impl View for VariableType {
    type V = Value;

    open spec fn view(&self) -> Value {
        match self {
            VariableType::Long(n) => Value::Long(*n),
            VariableType::Str(s) => Value::Str(s@),
            VariableType::UCharPtr(b, size) => Value::Buffer(
                match b {
                    Some(v) => Some(v@),
                    None => None,
                },
                *size,
            ),
            VariableType::VoidPtr => Value::VoidPtr,
            VariableType::MmapBase => Value::MmapBase,
            VariableType::Unknown => Value::Unknown,
        }
    }
}

impl VariableType {
    /// A copy of this value.
    pub fn duplicate(&self) -> (r: VariableType)
        ensures
            r@ == self@,
    {
        match self {
            VariableType::Long(n) => VariableType::Long(*n),
            VariableType::Str(s) => VariableType::Str(s.clone()),
            VariableType::UCharPtr(b, size) => {
                let contents = match b {
                    Some(v) => Some(copy_bytes(v)),
                    None => None,
                };
                VariableType::UCharPtr(contents, *size)
            },
            VariableType::VoidPtr => VariableType::VoidPtr,
            VariableType::MmapBase => VariableType::MmapBase,
            VariableType::Unknown => VariableType::Unknown,
        }
    }
}

/// A copy of a byte vector.
pub fn copy_bytes(v: &Vec<u8>) -> (r: Vec<u8>)
    ensures
        r@ == v@,
{
    let mut r: Vec<u8> = Vec::new();
    let mut i: usize = 0;
    while i < v.len()
        invariant
            i <= v.len(),
            r@ == v@.subrange(0, i as int),
        decreases v.len() - i,
    {
        r.push(v[i]);
        i = i + 1;
        assert(r@ == v@.subrange(0, i as int));
    }
    assert(v@.subrange(0, v.len() as int) == v@);
    r
}

/// One call to make: which syscall, and its positional arguments.
#[derive(Clone, Debug)]
pub struct Syscall {
    pub nr: SysNo,
    pub args: Vec<Arg>,
}

/// A replayable test case.
#[derive(Clone, Debug)]
pub struct Program {
    /// The table that variable arguments index into.
    pub variables: Vec<VariableType>,
    /// The calls, in replay order.
    pub syscalls: Vec<Syscall>,
    /// Descriptors to close once every call has been replayed.
    pub active_fds: Vec<i64>,
}

/// The values of a program's variable table.
pub open spec fn table(prog: &Program) -> Seq<Value> {
    prog.variables@.map_values(|v: VariableType| v@)
}

/// The values of a vector of variables.
pub open spec fn values(vs: Seq<VariableType>) -> Seq<Value> {
    vs.map_values(|v: VariableType| v@)
}

/// The primitive shape that a kernel entry point takes at one position.
#[derive(Clone, Copy, Debug, PartialEq, Eq, Structural)]
pub enum Coercion {
    U32,
    I32,
    U64,
    I64,
    Usize,
    Str,
    Path,
    Buffer,
    /// A position whose value the entry point does not take; any value fits.
    Unused,
}

/// Why the arguments of one syscall could not be turned into a kernel call.
#[derive(Clone, Copy, Debug, PartialEq, Eq, Structural)]
pub enum ResolutionError {
    /// A variable argument names an index past the end of the table.
    IndexOutOfRange(usize),
    /// An argument carries neither the index nor the literal its tag calls for.
    MalformedArgument,
    /// The syscall has fewer arguments than its entry point takes.
    MissingArgument(usize),
    /// A value is not of the variant that the coercion needs.
    Mismatch(Coercion),
}

/// A failure local to one syscall of a replay.
#[derive(Clone, Copy, Debug, PartialEq, Eq, Structural)]
pub enum ExecError {
    ArgumentResolution(ResolutionError),
    UnsupportedSyscall(SysNo),
}

} // verus!
