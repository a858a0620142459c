//! Resolution of syscall arguments against the variable table.
use vstd::prelude::*;
use crate::model::{values, table, Arg, ExecError, Program, ResolutionError, Value, VariableType};

verus! {

/// The value that an argument stands for, given the variable table `t`.
pub open spec fn resolution(t: Seq<Value>, a: Arg) -> Result<Value, ExecError> {
    if a.is_variable {
        match a.index {
            Some(i) => if i < t.len() {
                Ok(t[i as int])
            } else {
                Err(ExecError::ArgumentResolution(ResolutionError::IndexOutOfRange(i)))
            },
            None => Err(ExecError::ArgumentResolution(ResolutionError::MalformedArgument)),
        }
    } else {
        match a.value {
            Some(n) => Ok(Value::Long(n)),
            None => Err(ExecError::ArgumentResolution(ResolutionError::MalformedArgument)),
        }
    }
}

/// The values of a whole argument list, or the error of its first argument
/// that does not resolve.
pub open spec fn resolve_all(t: Seq<Value>, args: Seq<Arg>) -> Result<Seq<Value>, ExecError>
    decreases args.len(),
{
    if args.len() == 0 {
        Ok(Seq::empty())
    } else {
        match resolve_all(t, args.drop_last()) {
            Err(e) => Err(e),
            Ok(vs) => match resolution(t, args.last()) {
                Ok(v) => Ok(vs.push(v)),
                Err(e) => Err(e),
            },
        }
    }
}

/// Resolves one argument: a literal becomes an integer value, a variable
/// reference the table's value at its index.
pub fn resolve_arg(prog: &Program, arg: &Arg) -> (r: Result<VariableType, ExecError>)
    ensures
        resolution(table(prog), *arg) is Ok ==> r is Ok && r->Ok_0@ == resolution(
            table(prog),
            *arg,
        )->Ok_0,
        resolution(table(prog), *arg) is Err ==> r == Err::<VariableType, ExecError>(
            resolution(table(prog), *arg)->Err_0,
        ),
{
    if arg.is_variable {
        match arg.index {
            Some(i) => if i < prog.variables.len() {
                Ok(prog.variables[i].duplicate())
            } else {
                Err(ExecError::ArgumentResolution(ResolutionError::IndexOutOfRange(i)))
            },
            None => Err(ExecError::ArgumentResolution(ResolutionError::MalformedArgument)),
        }
    } else {
        match arg.value {
            Some(n) => Ok(VariableType::Long(n)),
            None => Err(ExecError::ArgumentResolution(ResolutionError::MalformedArgument)),
        }
    }
}

/// Resolves every argument, in order, stopping at the first that fails.
pub fn resolve_args(prog: &Program, args: &Vec<Arg>) -> (r: Result<Vec<VariableType>, ExecError>)
    ensures
        resolve_all(table(prog), args@) is Ok ==> r is Ok && values(r->Ok_0@) == resolve_all(
            table(prog),
            args@,
        )->Ok_0,
        resolve_all(table(prog), args@) is Err ==> r == Err::<Vec<VariableType>, ExecError>(
            resolve_all(table(prog), args@)->Err_0,
        ),
{
    let mut out: Vec<VariableType> = Vec::new();
    let mut i: usize = 0;
    assert(args@.subrange(0, 0) =~= Seq::<Arg>::empty());
    assert(values(out@) =~= Seq::<Value>::empty());
    while i < args.len()
        invariant
            i <= args.len(),
            resolve_all(table(prog), args@.subrange(0, i as int)) == Ok::<Seq<Value>, ExecError>(
                values(out@),
            ),
        decreases args.len() - i,
    {
        let ghost before = out@;
        let v = resolve_arg(prog, &args[i]);
        assert(args@.subrange(0, i + 1).drop_last() =~= args@.subrange(0, i as int));
        match v {
            Ok(v) => {
                out.push(v);
                assert(values(out@) =~= values(before).push(v@));
            },
            Err(e) => {
                proof {
                    lemma_resolve_all_prefix_err(table(prog), args@, i as int + 1);
                }
                return Err(e);
            },
        }
        i = i + 1;
    }
    assert(args@.subrange(0, args.len() as int) =~= args@);
    Ok(out)
}

/// Once a prefix of the arguments fails to resolve, the whole list fails with
/// the same error.
proof fn lemma_resolve_all_prefix_err(t: Seq<Value>, args: Seq<Arg>, k: int)
    requires
        0 <= k <= args.len(),
        resolve_all(t, args.subrange(0, k)) is Err,
    ensures
        resolve_all(t, args) == resolve_all(t, args.subrange(0, k)),
    decreases args.len() - k,
{
    if k < args.len() {
        assert(args.subrange(0, k + 1).drop_last() =~= args.subrange(0, k));
        lemma_resolve_all_prefix_err(t, args, k + 1);
    } else {
        assert(args.subrange(0, k) =~= args);
    }
}

/// A literal argument resolves to the integer it carries, and a variable
/// argument with an index inside the table to the table's value there,
/// unchanged.
pub proof fn lemma_resolution_exact(t: Seq<Value>, a: Arg)
    ensures
        !a.is_variable && a.value is Some ==> resolution(t, a) == Ok::<Value, ExecError>(
            Value::Long(a.value->Some_0),
        ),
        a.is_variable && a.index is Some && a.index->Some_0 < t.len() ==> resolution(t, a)
            == Ok::<Value, ExecError>(t[a.index->Some_0 as int]),
        a.is_variable && a.index is Some && a.index->Some_0 >= t.len() ==> resolution(t, a)
            is Err,
{
}

} // verus!
