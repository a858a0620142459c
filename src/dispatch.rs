//! The dispatch table: from a syscall and its resolved arguments to a kernel
//! call whose arguments have exactly the shapes its entry point takes.
use vstd::prelude::*;
use crate::coerce::{
    buffer_bytes, fits, mismatch, var_to_i32, var_to_i64, var_to_path, var_to_str, var_to_u32,
    var_to_u64, var_to_usize, var_to_vec, virtualized,
};
use crate::model::{values, Coercion, ExecError, ResolutionError, SysNo, Value, VariableType};

verus! {

/// A kernel entry point with its arguments, ready to be invoked. Paths carry
/// the mount point and the terminating null.
#[derive(Clone, Debug)]
#[allow(inconsistent_fields)]
pub enum KernelCall {
    Open { path: String, flags: u32, mode: u32 },
    Read { fd: i32, buf: Vec<u8>, count: usize },
    Write { fd: i32, buf: String, count: usize },
    Lseek { fd: i32, offset: u32, origin: u32 },
    /// The directory entries go to a fresh buffer that nobody reads.
    Getdents { fd: i32, count: usize },
    Pread { fd: i32, buf: Vec<u8>, count: usize, offset: u64 },
    Pwrite { fd: i32, buf: Vec<u8>, count: usize, offset: u64 },
    /// The status structure is filled and dropped.
    Fstat { fd: i32 },
    Rename { old: String, new: String },
    Fsync { fd: i32 },
    Fdatasync { fd: i32 },
    Syncfs { fd: i32 },
    /// `offset` is the one byte of the offset placeholder.
    Sendfile { out_fd: i32, in_fd: i32, offset: u8, count: usize },
    Access { path: String, mode: i32 },
    Ftruncate { fd: i32, length: u64 },
    Truncate { path: String, length: i64 },
    Mkdir { path: String, mode: u32 },
    Rmdir { path: String },
    Link { old: String, new: String },
    Unlink { path: String },
    Symlink { target: String, link: String },
    Setxattr { path: String, name: String, value: Vec<u8>, size: usize, flags: u32 },
    Listxattr { path: String, buf: Vec<u8> },
    Removexattr { path: String, name: String },
}

/// The coercion that each positional argument of a syscall goes through, or
/// `None` where the syscall is not supported.
pub open spec fn shape(nr: SysNo) -> Option<Seq<Coercion>> {
    match nr {
        SysNo::Open => Some(seq![Coercion::Path, Coercion::U32, Coercion::U32]),
        SysNo::Read => Some(seq![Coercion::I32, Coercion::Buffer, Coercion::Usize]),
        SysNo::Write => Some(seq![Coercion::I32, Coercion::Str, Coercion::Usize]),
        SysNo::Lseek => Some(seq![Coercion::I32, Coercion::U32, Coercion::U32]),
        SysNo::Getdents => Some(seq![Coercion::I32, Coercion::Unused, Coercion::Usize]),
        SysNo::Pread => Some(seq![Coercion::I32, Coercion::Buffer, Coercion::Usize, Coercion::U64]),
        SysNo::Pwrite => Some(seq![Coercion::I32, Coercion::Buffer, Coercion::Usize, Coercion::U64]),
        SysNo::Fstat => Some(seq![Coercion::I32]),
        SysNo::Rename => Some(seq![Coercion::Path, Coercion::Path]),
        SysNo::Fsync => Some(seq![Coercion::I32]),
        SysNo::Fdatasync => Some(seq![Coercion::I32]),
        SysNo::Syncfs => Some(seq![Coercion::I32]),
        SysNo::Sendfile => Some(seq![Coercion::I32, Coercion::I32, Coercion::I32, Coercion::Usize]),
        SysNo::Access => Some(seq![Coercion::Path, Coercion::I32]),
        SysNo::Ftruncate => Some(seq![Coercion::I32, Coercion::U64]),
        SysNo::Truncate => Some(seq![Coercion::Path, Coercion::I64]),
        SysNo::Mkdir => Some(seq![Coercion::Path, Coercion::U32]),
        SysNo::Rmdir => Some(seq![Coercion::Path]),
        SysNo::Link => Some(seq![Coercion::Path, Coercion::Path]),
        SysNo::Unlink => Some(seq![Coercion::Path]),
        SysNo::Symlink => Some(seq![Coercion::Path, Coercion::Path]),
        SysNo::Setxattr => Some(
            seq![Coercion::Path, Coercion::Str, Coercion::Buffer, Coercion::Usize, Coercion::U32],
        ),
        SysNo::Listxattr => Some(seq![Coercion::Path, Coercion::Buffer]),
        SysNo::Removexattr => Some(seq![Coercion::Path, Coercion::Str]),
        _ => None,
    }
}

/// The first position, from `i` on, whose argument is missing or does not fit
/// its coercion, as the error it causes.
pub open spec fn scan(v: Seq<Value>, kinds: Seq<Coercion>, i: int) -> Option<ResolutionError>
    decreases kinds.len() - i,
{
    if i < 0 || i >= kinds.len() {
        None
    } else if i >= v.len() {
        Some(ResolutionError::MissingArgument(i as usize))
    } else if !fits(v[i], kinds[i]) {
        Some(ResolutionError::Mismatch(kinds[i]))
    } else {
        scan(v, kinds, i + 1)
    }
}

/// The integer at position `i`.
pub open spec fn int_at(v: Seq<Value>, i: int) -> i64 {
    v[i]->Long_0
}

/// The string at position `i`.
pub open spec fn str_at(v: Seq<Value>, i: int) -> Seq<char> {
    v[i]->Str_0
}

/// The string at position `i`, rooted at mount point `m`.
pub open spec fn path_at(v: Seq<Value>, i: int, m: Seq<char>) -> Seq<char> {
    virtualized(m, str_at(v, i))
}

/// The bytes of the buffer at position `i`.
pub open spec fn bytes_at(v: Seq<Value>, i: int) -> Seq<u8> {
    buffer_bytes(v[i])
}

/// Whether `c` is the kernel call for syscall `nr` on the resolved values `v`,
/// with paths rooted at `m`.
pub open spec fn call_of(c: KernelCall, nr: SysNo, v: Seq<Value>, m: Seq<char>) -> bool {
    match c {
        KernelCall::Open { path, flags, mode } => nr == SysNo::Open && path@ == path_at(v, 0, m)
            && flags == int_at(v, 1) as u32 && mode == int_at(v, 2) as u32,
        KernelCall::Read { fd, buf, count } => nr == SysNo::Read && fd == int_at(v, 0) as i32
            && buf@ == bytes_at(v, 1) && count == int_at(v, 2) as usize,
        KernelCall::Write { fd, buf, count } => nr == SysNo::Write && fd == int_at(v, 0) as i32
            && buf@ == str_at(v, 1) && count == int_at(v, 2) as usize,
        KernelCall::Lseek { fd, offset, origin } => nr == SysNo::Lseek && fd == int_at(v, 0)
            as i32 && offset == int_at(v, 1) as u32 && origin == int_at(v, 2) as u32,
        KernelCall::Getdents { fd, count } => nr == SysNo::Getdents && fd == int_at(v, 0) as i32
            && count == int_at(v, 2) as usize,
        KernelCall::Pread { fd, buf, count, offset } => nr == SysNo::Pread && fd == int_at(v, 0)
            as i32 && buf@ == bytes_at(v, 1) && count == int_at(v, 2) as usize && offset
            == int_at(v, 3) as u64,
        KernelCall::Pwrite { fd, buf, count, offset } => nr == SysNo::Pwrite && fd == int_at(v, 0)
            as i32 && buf@ == bytes_at(v, 1) && count == int_at(v, 2) as usize && offset
            == int_at(v, 3) as u64,
        KernelCall::Fstat { fd } => nr == SysNo::Fstat && fd == int_at(v, 0) as i32,
        KernelCall::Rename { old, new } => nr == SysNo::Rename && old@ == path_at(v, 0, m) && new@
            == path_at(v, 1, m),
        KernelCall::Fsync { fd } => nr == SysNo::Fsync && fd == int_at(v, 0) as i32,
        KernelCall::Fdatasync { fd } => nr == SysNo::Fdatasync && fd == int_at(v, 0) as i32,
        KernelCall::Syncfs { fd } => nr == SysNo::Syncfs && fd == int_at(v, 0) as i32,
        KernelCall::Sendfile { out_fd, in_fd, offset, count } => nr == SysNo::Sendfile && out_fd
            == int_at(v, 0) as i32 && in_fd == int_at(v, 1) as i32 && offset == (int_at(v, 2)
            as i32) as u8 && count == int_at(v, 3) as usize,
        KernelCall::Access { path, mode } => nr == SysNo::Access && path@ == path_at(v, 0, m)
            && mode == int_at(v, 1) as i32,
        KernelCall::Ftruncate { fd, length } => nr == SysNo::Ftruncate && fd == int_at(v, 0) as i32
            && length == int_at(v, 1) as u64,
        KernelCall::Truncate { path, length } => nr == SysNo::Truncate && path@ == path_at(v, 0, m)
            && length == int_at(v, 1),
        KernelCall::Mkdir { path, mode } => nr == SysNo::Mkdir && path@ == path_at(v, 0, m) && mode
            == int_at(v, 1) as u32,
        KernelCall::Rmdir { path } => nr == SysNo::Rmdir && path@ == path_at(v, 0, m),
        KernelCall::Link { old, new } => nr == SysNo::Link && old@ == path_at(v, 0, m) && new@
            == path_at(v, 1, m),
        KernelCall::Unlink { path } => nr == SysNo::Unlink && path@ == path_at(v, 0, m),
        KernelCall::Symlink { target, link } => nr == SysNo::Symlink && target@ == path_at(v, 0, m)
            && link@ == path_at(v, 1, m),
        KernelCall::Setxattr { path, name, value, size, flags } => nr == SysNo::Setxattr && path@
            == path_at(v, 0, m) && name@ == str_at(v, 1) && value@ == bytes_at(v, 2) && size
            == int_at(v, 3) as usize && flags == int_at(v, 4) as u32,
        KernelCall::Listxattr { path, buf } => nr == SysNo::Listxattr && path@ == path_at(v, 0, m)
            && buf@ == bytes_at(v, 1),
        KernelCall::Removexattr { path, name } => nr == SysNo::Removexattr && path@ == path_at(
            v,
            0,
            m,
        ) && name@ == str_at(v, 1),
    }
}

/// What dispatching syscall `nr` on the resolved values `v`, under mount point
/// `m`, gives: the error of an unsupported syscall, the error of the first
/// argument that is missing or does not fit, or else exactly the kernel call.
pub open spec fn dispatched(r: Result<KernelCall, ExecError>, nr: SysNo, v: Seq<Value>, m: Seq<char>) -> bool {
    match shape(nr) {
        None => r == Err::<KernelCall, ExecError>(ExecError::UnsupportedSyscall(nr)),
        Some(kinds) => match scan(v, kinds, 0) {
            Some(e) => r == Err::<KernelCall, ExecError>(ExecError::ArgumentResolution(e)),
            None => r is Ok && call_of(r->Ok_0, nr, v, m),
        },
    }
}

/// The coercions of syscall `nr`'s arguments, or `None` where it is not
/// supported.
pub fn shape_of(nr: SysNo) -> (r: Option<Vec<Coercion>>)
    ensures
        shape(nr) is None ==> r is None,
        shape(nr) is Some ==> r is Some && r->Some_0@ == shape(nr)->Some_0,
{
    let r = match nr {
        SysNo::Open => Some(vec![Coercion::Path, Coercion::U32, Coercion::U32]),
        SysNo::Read => Some(vec![Coercion::I32, Coercion::Buffer, Coercion::Usize]),
        SysNo::Write => Some(vec![Coercion::I32, Coercion::Str, Coercion::Usize]),
        SysNo::Lseek => Some(vec![Coercion::I32, Coercion::U32, Coercion::U32]),
        SysNo::Getdents => Some(vec![Coercion::I32, Coercion::Unused, Coercion::Usize]),
        SysNo::Pread => Some(vec![Coercion::I32, Coercion::Buffer, Coercion::Usize, Coercion::U64]),
        SysNo::Pwrite => Some(vec![Coercion::I32, Coercion::Buffer, Coercion::Usize, Coercion::U64]),
        SysNo::Fstat => Some(vec![Coercion::I32]),
        SysNo::Rename => Some(vec![Coercion::Path, Coercion::Path]),
        SysNo::Fsync => Some(vec![Coercion::I32]),
        SysNo::Fdatasync => Some(vec![Coercion::I32]),
        SysNo::Syncfs => Some(vec![Coercion::I32]),
        SysNo::Sendfile => Some(vec![Coercion::I32, Coercion::I32, Coercion::I32, Coercion::Usize]),
        SysNo::Access => Some(vec![Coercion::Path, Coercion::I32]),
        SysNo::Ftruncate => Some(vec![Coercion::I32, Coercion::U64]),
        SysNo::Truncate => Some(vec![Coercion::Path, Coercion::I64]),
        SysNo::Mkdir => Some(vec![Coercion::Path, Coercion::U32]),
        SysNo::Rmdir => Some(vec![Coercion::Path]),
        SysNo::Link => Some(vec![Coercion::Path, Coercion::Path]),
        SysNo::Unlink => Some(vec![Coercion::Path]),
        SysNo::Symlink => Some(vec![Coercion::Path, Coercion::Path]),
        SysNo::Setxattr => Some(
            vec![Coercion::Path, Coercion::Str, Coercion::Buffer, Coercion::Usize, Coercion::U32],
        ),
        SysNo::Listxattr => Some(vec![Coercion::Path, Coercion::Buffer]),
        SysNo::Removexattr => Some(vec![Coercion::Path, Coercion::Str]),
        _ => None,
    };
    proof {
        if r is Some {
            assert(r->Some_0@ =~= shape(nr)->Some_0);
        }
    }
    r
}

/// Whether a value fits a coercion.
fn fits_kind(v: &VariableType, k: Coercion) -> (r: bool)
    ensures
        r == fits(v@, k),
{
    match k {
        Coercion::Str | Coercion::Path => matches!(v, VariableType::Str(_)),
        Coercion::Buffer => matches!(v, VariableType::UCharPtr(_, _)),
        Coercion::Unused => true,
        _ => matches!(v, VariableType::Long(_)),
    }
}

/// Finds the first argument that is missing or does not fit its coercion.
pub fn check_args(vars: &Vec<VariableType>, kinds: &Vec<Coercion>) -> (r: Option<ResolutionError>)
    ensures
        r == scan(values(vars@), kinds@, 0),
{
    let ghost v = values(vars@);
    let mut i: usize = 0;
    while i < kinds.len()
        invariant
            i <= kinds.len(),
            v == values(vars@),
            scan(v, kinds@, 0) == scan(v, kinds@, i as int),
        decreases kinds.len() - i,
    {
        if i >= vars.len() {
            return Some(ResolutionError::MissingArgument(i));
        }
        if !fits_kind(&vars[i], kinds[i]) {
            return Some(ResolutionError::Mismatch(kinds[i]));
        }
        i = i + 1;
    }
    None
}

/// A clean scan means that every position exists and fits its coercion.
pub proof fn lemma_scan_clean(vs: Seq<VariableType>, kinds: Seq<Coercion>, i: int)
    requires
        0 <= i <= kinds.len(),
        scan(values(vs), kinds, i) is None,
    ensures
        i < kinds.len() ==> kinds.len() <= vs.len(),
        forall|j: int| i <= j < kinds.len() ==> fits(#[trigger] vs[j]@, kinds[j]),
    decreases kinds.len() - i,
{
    if i < kinds.len() {
        lemma_scan_clean(vs, kinds, i + 1);
    }
}

/// Turns syscall `nr`, on its resolved argument values, into the kernel call
/// that replays it, with every path rooted at `mount_point`.
pub fn prepare_call(nr: SysNo, vars: &Vec<VariableType>, mount_point: &str) -> (r: Result<
    KernelCall,
    ExecError,
>)
    ensures
        dispatched(r, nr, values(vars@), mount_point@),
{
    let kinds = match shape_of(nr) {
        None => return Err(ExecError::UnsupportedSyscall(nr)),
        Some(k) => k,
    };
    if let Some(e) = check_args(vars, &kinds) {
        return Err(ExecError::ArgumentResolution(e));
    }
    proof {
        lemma_scan_clean(vars@, kinds@, 0);
    }
    let m = mount_point;
    match nr {
        SysNo::Open => Ok(
            KernelCall::Open {
                path: var_to_path(&vars[0], m)?,
                flags: var_to_u32(&vars[1])?,
                mode: var_to_u32(&vars[2])?,
            },
        ),
        SysNo::Read => Ok(
            KernelCall::Read {
                fd: var_to_i32(&vars[0])?,
                buf: var_to_vec(&vars[1])?,
                count: var_to_usize(&vars[2])?,
            },
        ),
        SysNo::Write => Ok(
            KernelCall::Write {
                fd: var_to_i32(&vars[0])?,
                buf: var_to_str(&vars[1])?,
                count: var_to_usize(&vars[2])?,
            },
        ),
        SysNo::Lseek => Ok(
            KernelCall::Lseek {
                fd: var_to_i32(&vars[0])?,
                offset: var_to_u32(&vars[1])?,
                origin: var_to_u32(&vars[2])?,
            },
        ),
        SysNo::Getdents => Ok(
            KernelCall::Getdents { fd: var_to_i32(&vars[0])?, count: var_to_usize(&vars[2])? },
        ),
        SysNo::Pread => Ok(
            KernelCall::Pread {
                fd: var_to_i32(&vars[0])?,
                buf: var_to_vec(&vars[1])?,
                count: var_to_usize(&vars[2])?,
                offset: var_to_u64(&vars[3])?,
            },
        ),
        SysNo::Pwrite => Ok(
            KernelCall::Pwrite {
                fd: var_to_i32(&vars[0])?,
                buf: var_to_vec(&vars[1])?,
                count: var_to_usize(&vars[2])?,
                offset: var_to_u64(&vars[3])?,
            },
        ),
        SysNo::Fstat => Ok(KernelCall::Fstat { fd: var_to_i32(&vars[0])? }),
        SysNo::Rename => Ok(
            KernelCall::Rename { old: var_to_path(&vars[0], m)?, new: var_to_path(&vars[1], m)? },
        ),
        SysNo::Fsync => Ok(KernelCall::Fsync { fd: var_to_i32(&vars[0])? }),
        SysNo::Fdatasync => Ok(KernelCall::Fdatasync { fd: var_to_i32(&vars[0])? }),
        SysNo::Syncfs => Ok(KernelCall::Syncfs { fd: var_to_i32(&vars[0])? }),
        SysNo::Sendfile => {
            let out_fd = var_to_i32(&vars[0])?;
            let in_fd = var_to_i32(&vars[1])?;
            let placeholder = var_to_i32(&vars[2])?;
            let count = var_to_usize(&vars[3])?;
            Ok(
                KernelCall::Sendfile {
                    out_fd,
                    in_fd,
                    offset: #[verifier::truncate] (placeholder as u8),
                    count,
                },
            )
        },
        SysNo::Access => Ok(
            KernelCall::Access { path: var_to_path(&vars[0], m)?, mode: var_to_i32(&vars[1])? },
        ),
        SysNo::Ftruncate => Ok(
            KernelCall::Ftruncate { fd: var_to_i32(&vars[0])?, length: var_to_u64(&vars[1])? },
        ),
        SysNo::Truncate => Ok(
            KernelCall::Truncate { path: var_to_path(&vars[0], m)?, length: var_to_i64(&vars[1])? },
        ),
        SysNo::Mkdir => Ok(
            KernelCall::Mkdir { path: var_to_path(&vars[0], m)?, mode: var_to_u32(&vars[1])? },
        ),
        SysNo::Rmdir => Ok(KernelCall::Rmdir { path: var_to_path(&vars[0], m)? }),
        SysNo::Link => Ok(
            KernelCall::Link { old: var_to_path(&vars[0], m)?, new: var_to_path(&vars[1], m)? },
        ),
        SysNo::Unlink => Ok(KernelCall::Unlink { path: var_to_path(&vars[0], m)? }),
        SysNo::Symlink => Ok(
            KernelCall::Symlink {
                target: var_to_path(&vars[0], m)?,
                link: var_to_path(&vars[1], m)?,
            },
        ),
        SysNo::Setxattr => Ok(
            KernelCall::Setxattr {
                path: var_to_path(&vars[0], m)?,
                name: var_to_str(&vars[1])?,
                value: var_to_vec(&vars[2])?,
                size: var_to_usize(&vars[3])?,
                flags: var_to_u32(&vars[4])?,
            },
        ),
        SysNo::Listxattr => Ok(
            KernelCall::Listxattr { path: var_to_path(&vars[0], m)?, buf: var_to_vec(&vars[1])? },
        ),
        SysNo::Removexattr => Ok(
            KernelCall::Removexattr {
                path: var_to_path(&vars[0], m)?,
                name: var_to_str(&vars[1])?,
            },
        ),
        _ => Err(ExecError::UnsupportedSyscall(nr)),
    }
}

} // verus!
