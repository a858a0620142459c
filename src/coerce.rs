//! Coercion of resolved values into the primitive shapes of kernel entry
//! points, and the rewriting of program paths under a mount point.
use vstd::prelude::*;
use crate::model::{Coercion, ExecError, ResolutionError, Value, VariableType};
use vstd::string::StringExecFns;

verus! {

/// Whether a value is of the variant that a coercion to `k` needs.
pub open spec fn fits(v: Value, k: Coercion) -> bool {
    match k {
        Coercion::Str | Coercion::Path => v is Str,
        Coercion::Buffer => v is Buffer,
        Coercion::Unused => true,
        _ => v is Long,
    }
}

/// The error reported when a value does not fit a coercion.
pub open spec fn mismatch(k: Coercion) -> ExecError {
    ExecError::ArgumentResolution(ResolutionError::Mismatch(k))
}

/// The bytes that a buffer value stands for: its recorded contents, or zeros
/// of its declared size when none were recorded.
pub open spec fn buffer_bytes(v: Value) -> Seq<u8>
    recommends
        v is Buffer,
{
    match v {
        Value::Buffer(Some(b), _) => b,
        Value::Buffer(None, size) => Seq::new(size as nat, |i: int| 0u8),
        _ => Seq::empty(),
    }
}

/// A program path rooted at mount point `m`, with the terminating null.
pub open spec fn virtualized(m: Seq<char>, p: Seq<char>) -> Seq<char> {
    m + p + seq!['\0']
}

/// Roots the program path `p` at mount point `m` and terminates it with a
/// single null character. No normalisation takes place.
pub fn virtualize(m: &str, p: &str) -> (r: String)
    ensures
        r@ == virtualized(m@, p@),
{
    let mut r = m.to_owned();
    r.append(p);
    r.append("\0");
    proof {
        reveal_strlit("\0");
    }
    r
}

/// The integer of a value that fits an integer coercion.
pub fn long_of(v: &VariableType, k: Coercion) -> (r: Result<i64, ExecError>)
    ensures
        v@ is Long ==> r == Ok::<i64, ExecError>(v@->Long_0),
        !(v@ is Long) ==> r == Err::<i64, ExecError>(mismatch(k)),
{
    match v {
        VariableType::Long(n) => Ok(*n),
        _ => Err(ExecError::ArgumentResolution(ResolutionError::Mismatch(k))),
    }
}

/// The string of a string value.
pub fn var_to_str(v: &VariableType) -> (r: Result<String, ExecError>)
    ensures
        v@ is Str ==> r is Ok && r->Ok_0@ == v@->Str_0,
        !(v@ is Str) ==> r == Err::<String, ExecError>(mismatch(Coercion::Str)),
{
    match v {
        VariableType::Str(s) => Ok(s.clone()),
        _ => Err(ExecError::ArgumentResolution(ResolutionError::Mismatch(Coercion::Str))),
    }
}

/// The low 32 bits of an integer value, unsigned.
pub fn var_to_u32(v: &VariableType) -> (r: Result<u32, ExecError>)
    ensures
        v@ is Long ==> r == Ok::<u32, ExecError>(v@->Long_0 as u32),
        !(v@ is Long) ==> r == Err::<u32, ExecError>(mismatch(Coercion::U32)),
{
    let n = long_of(v, Coercion::U32)?;
    Ok(#[verifier::truncate] (n as u32))
}

/// An integer value as an unsigned 64-bit number, bit for bit.
pub fn var_to_u64(v: &VariableType) -> (r: Result<u64, ExecError>)
    ensures
        v@ is Long ==> r == Ok::<u64, ExecError>(v@->Long_0 as u64),
        !(v@ is Long) ==> r == Err::<u64, ExecError>(mismatch(Coercion::U64)),
{
    let n = long_of(v, Coercion::U64)?;
    Ok(#[verifier::truncate] (n as u64))
}

/// An integer value as it is.
pub fn var_to_i64(v: &VariableType) -> (r: Result<i64, ExecError>)
    ensures
        v@ is Long ==> r == Ok::<i64, ExecError>(v@->Long_0),
        !(v@ is Long) ==> r == Err::<i64, ExecError>(mismatch(Coercion::I64)),
{
    long_of(v, Coercion::I64)
}

/// An integer value as a size, with the wraparound of the cast.
pub fn var_to_usize(v: &VariableType) -> (r: Result<usize, ExecError>)
    ensures
        v@ is Long ==> r == Ok::<usize, ExecError>(v@->Long_0 as usize),
        !(v@ is Long) ==> r == Err::<usize, ExecError>(mismatch(Coercion::Usize)),
{
    let n = long_of(v, Coercion::Usize)?;
    Ok(#[verifier::truncate] (n as usize))
}

/// The low 32 bits of an integer value, signed.
pub fn var_to_i32(v: &VariableType) -> (r: Result<i32, ExecError>)
    ensures
        v@ is Long ==> r == Ok::<i32, ExecError>(v@->Long_0 as i32),
        !(v@ is Long) ==> r == Err::<i32, ExecError>(mismatch(Coercion::I32)),
{
    let n = long_of(v, Coercion::I32)?;
    Ok(#[verifier::truncate] (n as i32))
}

/// A string value rooted at the mount point.
pub fn var_to_path(v: &VariableType, mount_point: &str) -> (r: Result<String, ExecError>)
    ensures
        v@ is Str ==> r is Ok && r->Ok_0@ == virtualized(mount_point@, v@->Str_0),
        !(v@ is Str) ==> r == Err::<String, ExecError>(mismatch(Coercion::Path)),
{
    match v {
        VariableType::Str(s) => Ok(virtualize(mount_point, s.as_str())),
        _ => Err(ExecError::ArgumentResolution(ResolutionError::Mismatch(Coercion::Path))),
    }
}

/// The bytes of a buffer value; zeros of the declared size where no contents
/// were recorded.
pub fn var_to_vec(v: &VariableType) -> (r: Result<Vec<u8>, ExecError>)
    ensures
        v@ is Buffer ==> r is Ok && r->Ok_0@ == buffer_bytes(v@),
        !(v@ is Buffer) ==> r == Err::<Vec<u8>, ExecError>(mismatch(Coercion::Buffer)),
{
    match v {
        VariableType::UCharPtr(contents, size) => match contents {
            None => {
                let r = zeros(*size);
                assert(r@ =~= buffer_bytes(v@));
                Ok(r)
            },
            Some(b) => Ok(crate::model::copy_bytes(b)),
        },
        _ => Err(ExecError::ArgumentResolution(ResolutionError::Mismatch(Coercion::Buffer))),
    }
}

/// A vector of `n` zero bytes.
fn zeros(n: u32) -> (r: Vec<u8>)
    ensures
        r@ == Seq::new(n as nat, |i: int| 0u8),
{
    let mut r: Vec<u8> = Vec::new();
    let mut i: u32 = 0;
    while i < n
        invariant
            i <= n,
            r@ == Seq::new(i as nat, |j: int| 0u8),
        decreases n - i,
    {
        r.push(0u8);
        i = i + 1;
        assert(r@ =~= Seq::new(i as nat, |j: int| 0u8));
    }
    r
}

/// Rooting paths under one mount point is injective, and every rooted path
/// starts with the mount point and ends with the single terminator.
pub proof fn lemma_virtualize_injective(m: Seq<char>, p1: Seq<char>, p2: Seq<char>)
    ensures
        p1 != p2 ==> virtualized(m, p1) != virtualized(m, p2),
        virtualized(m, p1).subrange(0, m.len() as int) == m,
        virtualized(m, p1).last() == '\0',
        virtualized(m, p1).len() == m.len() + p1.len() + 1,
{
    let v1 = virtualized(m, p1);
    let v2 = virtualized(m, p2);
    assert(v1.subrange(0, m.len() as int) =~= m);
    assert(v1.subrange(m.len() as int, m.len() + p1.len() as int) =~= p1);
    assert(v2.subrange(m.len() as int, m.len() + p2.len() as int) =~= p2);
    if p1 != p2 && v1 == v2 {
        assert(p1.len() == p2.len());
        assert(p1 =~= p2);
    }
}

} // verus!
