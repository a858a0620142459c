//! The bookkeeping of a replay run: what to invoke for each syscall, in
//! order, what to report for each, and which descriptors to close at the end.
use vstd::prelude::*;
use vstd::string::StringExecFns;
use crate::dispatch::{dispatched, prepare_call, KernelCall};
use crate::model::{table, values, ExecError, Program, SysNo, Syscall};
use crate::resolve::{resolve_all, resolve_args};

verus! {

/// What planning a syscall of `prog` gives: the error of its first argument
/// that does not resolve, or else what dispatching its values gives.
pub open spec fn planned(
    r: Result<KernelCall, ExecError>,
    prog: &Program,
    sc: Syscall,
    m: Seq<char>,
) -> bool {
    match resolve_all(table(prog), sc.args@) {
        Err(e) => r == Err::<KernelCall, ExecError>(e),
        Ok(v) => dispatched(r, sc.nr, v, m),
    }
}

/// Resolves a syscall's arguments and turns it into the kernel call that
/// replays it, or the error that keeps it from being made.
pub fn plan_syscall(prog: &Program, syscall: &Syscall, mount_point: &str) -> (r: Result<
    KernelCall,
    ExecError,
>)
    ensures
        planned(r, prog, *syscall, mount_point@),
{
    let vars = resolve_args(prog, &syscall.args)?;
    prepare_call(syscall.nr, &vars, mount_point)
}

/// Plans every syscall of the program, one entry per syscall, in replay order.
///
/// Buffers that a kernel call fills are not written back to the variable
/// table, so each plan depends on the program alone and the whole run can be
/// planned before the first call is made.
pub fn plan_program(prog: &Program, mount_point: &str) -> (r: Vec<Result<KernelCall, ExecError>>)
    ensures
        r.len() == prog.syscalls.len(),
        forall|i: int|
            0 <= i < r.len() ==> planned(#[trigger] r@[i], prog, prog.syscalls@[i], mount_point@),
{
    let mut r: Vec<Result<KernelCall, ExecError>> = Vec::new();
    let mut i: usize = 0;
    while i < prog.syscalls.len()
        invariant
            i <= prog.syscalls.len(),
            r.len() == i,
            forall|j: int|
                0 <= j < i ==> planned(#[trigger] r@[j], prog, prog.syscalls@[j], mount_point@),
        decreases prog.syscalls.len() - i,
    {
        let p = plan_syscall(prog, &prog.syscalls[i], mount_point);
        r.push(p);
        i = i + 1;
    }
    r
}

/// What the run reports of one syscall: its identifier, and the value its
/// kernel entry point returned or the error that kept it from being invoked.
#[derive(Clone, Copy, Debug)]
pub struct Report {
    pub nr: SysNo,
    pub outcome: Result<i64, ExecError>,
}

impl Report {
    /// The operating-system error code that a failed kernel call returned, if
    /// this report is of one; it goes to the error-code translator.
    pub open spec fn kernel_error_spec(&self) -> Option<i64> {
        match self.outcome {
            Ok(ret) => if ret < 0 {
                Some(ret)
            } else {
                None
            },
            Err(_) => None,
        }
    }

    /// The operating-system error code that a failed kernel call returned, if
    /// this report is of one.
    #[verifier::when_used_as_spec(kernel_error_spec)]
    pub fn kernel_error(&self) -> (r: Option<i64>)
        ensures
            r == self.kernel_error_spec(),
    {
        match self.outcome {
            Ok(ret) => if ret < 0 {
                Some(ret)
            } else {
                None
            },
            Err(_) => None,
        }
    }

    /// The per-call error to report on the diagnostic stream, if any.
    pub fn call_error(&self) -> (r: Option<ExecError>)
        ensures
            self.outcome is Err ==> r == Some(self.outcome->Err_0),
            self.outcome is Ok ==> r is None,
    {
        match self.outcome {
            Ok(_) => None,
            Err(e) => Some(e),
        }
    }
}

/// The reports of a run, one per syscall and in the program's order, from the
/// outcome of each syscall: the kernel's value where the call was made, the
/// planning error where it was not. Values are kept exactly as returned.
pub fn report_all(prog: &Program, outcomes: &Vec<Result<i64, ExecError>>) -> (r: Vec<Report>)
    requires
        outcomes.len() == prog.syscalls.len(),
    ensures
        r.len() == prog.syscalls.len(),
        forall|i: int|
            0 <= i < r.len() ==> #[trigger] r@[i] == (Report {
                nr: prog.syscalls@[i].nr,
                outcome: outcomes@[i],
            }),
{
    let mut r: Vec<Report> = Vec::new();
    let mut i: usize = 0;
    while i < outcomes.len()
        invariant
            i <= outcomes.len(),
            outcomes.len() == prog.syscalls.len(),
            r.len() == i,
            forall|j: int|
                0 <= j < i ==> #[trigger] r@[j] == (Report {
                    nr: prog.syscalls@[j].nr,
                    outcome: outcomes@[j],
                }),
        decreases outcomes.len() - i,
    {
        r.push(Report { nr: prog.syscalls[i].nr, outcome: outcomes[i] });
        i = i + 1;
    }
    r
}

/// The descriptors that end a run: each entry of the program's active
/// descriptors, as the 32-bit descriptor the close entry point takes.
pub fn descriptors_to_close(prog: &Program) -> (r: Vec<i32>)
    ensures
        r.len() == prog.active_fds.len(),
        forall|i: int| 0 <= i < r.len() ==> #[trigger] r@[i] == prog.active_fds@[i] as i32,
{
    let mut r: Vec<i32> = Vec::new();
    let mut i: usize = 0;
    while i < prog.active_fds.len()
        invariant
            i <= prog.active_fds.len(),
            r.len() == i,
            forall|j: int| 0 <= j < i ==> #[trigger] r@[j] == prog.active_fds@[j] as i32,
        decreases prog.active_fds.len() - i,
    {
        let fd = prog.active_fds[i];
        r.push(#[verifier::truncate] (fd as i32));
        i = i + 1;
    }
    r
}

/// The name under which a syscall is reported.
pub open spec fn name_of(nr: SysNo) -> Seq<char> {
    match nr {
        SysNo::Open => "SYS_open"@,
        SysNo::Read => "SYS_read"@,
        SysNo::Write => "SYS_write"@,
        SysNo::Lseek => "SYS_lseek"@,
        SysNo::Getdents => "SYS_getdents64"@,
        SysNo::Pread => "SYS_pread64"@,
        SysNo::Pwrite => "SYS_pwrite64"@,
        SysNo::Fstat => "SYS_fstat"@,
        SysNo::Stat => "SYS_stat"@,
        SysNo::Lstat => "SYS_lstat"@,
        SysNo::Rename => "SYS_rename"@,
        SysNo::Fsync => "SYS_fsync"@,
        SysNo::Fdatasync => "SYS_fdatasync"@,
        SysNo::Syncfs => "SYS_syncfs"@,
        SysNo::Sendfile => "SYS_sendfile"@,
        SysNo::Access => "SYS_access"@,
        SysNo::Ftruncate => "SYS_ftruncate"@,
        SysNo::Truncate => "SYS_truncate"@,
        SysNo::Mkdir => "SYS_mkdir"@,
        SysNo::Rmdir => "SYS_rmdir"@,
        SysNo::Link => "SYS_link"@,
        SysNo::Unlink => "SYS_unlink"@,
        SysNo::Symlink => "SYS_symlink"@,
        SysNo::Setxattr => "SYS_setxattr"@,
        SysNo::Getxattr => "SYS_getxattr"@,
        SysNo::Removexattr => "SYS_removexattr"@,
        SysNo::Listxattr => "SYS_listxattr"@,
    }
}

/// The name under which a syscall is reported.
pub fn syscall_name(nr: SysNo) -> (r: &'static str)
    ensures
        r@ == name_of(nr),
{
    proof {
        reveal_strlit("SYS_open");
        reveal_strlit("SYS_read");
        reveal_strlit("SYS_write");
        reveal_strlit("SYS_lseek");
        reveal_strlit("SYS_getdents64");
        reveal_strlit("SYS_pread64");
        reveal_strlit("SYS_pwrite64");
        reveal_strlit("SYS_fstat");
        reveal_strlit("SYS_stat");
        reveal_strlit("SYS_lstat");
        reveal_strlit("SYS_rename");
        reveal_strlit("SYS_fsync");
        reveal_strlit("SYS_fdatasync");
        reveal_strlit("SYS_syncfs");
        reveal_strlit("SYS_sendfile");
        reveal_strlit("SYS_access");
        reveal_strlit("SYS_ftruncate");
        reveal_strlit("SYS_truncate");
        reveal_strlit("SYS_mkdir");
        reveal_strlit("SYS_rmdir");
        reveal_strlit("SYS_link");
        reveal_strlit("SYS_unlink");
        reveal_strlit("SYS_symlink");
        reveal_strlit("SYS_setxattr");
        reveal_strlit("SYS_getxattr");
        reveal_strlit("SYS_removexattr");
        reveal_strlit("SYS_listxattr");
    }
    match nr {
        SysNo::Open => "SYS_open",
        SysNo::Read => "SYS_read",
        SysNo::Write => "SYS_write",
        SysNo::Lseek => "SYS_lseek",
        SysNo::Getdents => "SYS_getdents64",
        SysNo::Pread => "SYS_pread64",
        SysNo::Pwrite => "SYS_pwrite64",
        SysNo::Fstat => "SYS_fstat",
        SysNo::Stat => "SYS_stat",
        SysNo::Lstat => "SYS_lstat",
        SysNo::Rename => "SYS_rename",
        SysNo::Fsync => "SYS_fsync",
        SysNo::Fdatasync => "SYS_fdatasync",
        SysNo::Syncfs => "SYS_syncfs",
        SysNo::Sendfile => "SYS_sendfile",
        SysNo::Access => "SYS_access",
        SysNo::Ftruncate => "SYS_ftruncate",
        SysNo::Truncate => "SYS_truncate",
        SysNo::Mkdir => "SYS_mkdir",
        SysNo::Rmdir => "SYS_rmdir",
        SysNo::Link => "SYS_link",
        SysNo::Unlink => "SYS_unlink",
        SysNo::Symlink => "SYS_symlink",
        SysNo::Setxattr => "SYS_setxattr",
        SysNo::Getxattr => "SYS_getxattr",
        SysNo::Removexattr => "SYS_removexattr",
        SysNo::Listxattr => "SYS_listxattr",
    }
}

/// The character of a decimal digit.
pub open spec fn digit_char(d: nat) -> char {
    if d < 10 {
        (d + 48) as char
    } else {
        '?'
    }
}

/// The decimal digits of a natural number, most significant first.
pub open spec fn digits(n: nat) -> Seq<char>
    decreases n,
{
    if n < 10 {
        seq![digit_char(n)]
    } else {
        digits(n / 10).push(digit_char(n % 10))
    }
}

/// The decimal form of an integer, with a leading minus sign when negative.
pub open spec fn decimal(n: int) -> Seq<char> {
    if n < 0 {
        seq!['-'] + digits((-n) as nat)
    } else {
        digits(n as nat)
    }
}

/// The text of one decimal digit.
fn digit_str(d: u64) -> (r: &'static str)
    requires
        d < 10,
    ensures
        r@ == seq![digit_char(d as nat)],
{
    proof {
        reveal_strlit("0");
        reveal_strlit("1");
        reveal_strlit("2");
        reveal_strlit("3");
        reveal_strlit("4");
        reveal_strlit("5");
        reveal_strlit("6");
        reveal_strlit("7");
        reveal_strlit("8");
        reveal_strlit("9");
    }
    match d {
        0 => "0",
        1 => "1",
        2 => "2",
        3 => "3",
        4 => "4",
        5 => "5",
        6 => "6",
        7 => "7",
        8 => "8",
        9 => "9",
        _ => "9",
    }
}

/// Appends the decimal digits of `n` to `s`.
fn append_digits(s: &mut String, n: u64)
    ensures
        final(s)@ == old(s)@ + digits(n as nat),
    decreases n,
{
    if n >= 10 {
        append_digits(s, n / 10);
    }
    let d = digit_str(n % 10);
    s.append(d);
    proof {
        if n >= 10 {
            assert(final(s)@ =~= old(s)@ + digits(n as nat));
        } else {
            assert(final(s)@ =~= old(s)@ + digits(n as nat));
        }
    }
}

/// Appends the decimal form of `n` to `s`.
pub fn append_decimal(s: &mut String, n: i64)
    ensures
        final(s)@ == old(s)@ + decimal(n as int),
{
    if n < 0 {
        let magnitude: u64 = ((-(n + 1)) as u64) + 1;
        s.append("-");
        proof {
            reveal_strlit("-");
        }
        append_digits(s, magnitude);
        assert(final(s)@ =~= old(s)@ + decimal(n as int));
    } else {
        append_digits(s, n as u64);
    }
}

/// The standard-output line of a report: the syscall's name, a space, and the
/// value its kernel entry point returned, or `error` where it was not invoked.
pub open spec fn line_of(rep: Report) -> Seq<char> {
    name_of(rep.nr) + seq![' '] + match rep.outcome {
        Ok(ret) => decimal(ret as int),
        Err(_) => "error"@,
    }
}

impl Report {
    /// The line that this report puts on standard output.
    pub fn stdout_line(&self) -> (r: String)
        ensures
            r@ == line_of(*self),
    {
        let mut s = syscall_name(self.nr).to_owned();
        s.append(" ");
        proof {
            reveal_strlit(" ");
            reveal_strlit("error");
        }
        match self.outcome {
            Ok(ret) => append_decimal(&mut s, ret),
            Err(_) => s.append("error"),
        }
        assert(s@ =~= line_of(*self));
        s
    }
}

/// The standard-output lines of a run, one per report and in the same order.
pub fn stdout_lines(reports: &Vec<Report>) -> (r: Vec<String>)
    ensures
        r.len() == reports.len(),
        forall|i: int| 0 <= i < r.len() ==> (#[trigger] r@[i])@ == line_of(reports@[i]),
{
    let mut r: Vec<String> = Vec::new();
    let mut i: usize = 0;
    while i < reports.len()
        invariant
            i <= reports.len(),
            r.len() == i,
            forall|j: int| 0 <= j < i ==> (#[trigger] r@[j])@ == line_of(reports@[j]),
        decreases reports.len() - i,
    {
        r.push(reports[i].stdout_line());
        i = i + 1;
    }
    r
}

/// The standard-output lines of a run, from the outcome of each syscall: one
/// line per syscall of the program, in its order, failed or not.
pub fn output_lines(prog: &Program, outcomes: &Vec<Result<i64, ExecError>>) -> (r: Vec<String>)
    requires
        outcomes.len() == prog.syscalls.len(),
    ensures
        r.len() == prog.syscalls.len(),
        forall|i: int|
            0 <= i < r.len() ==> (#[trigger] r@[i])@ == line_of(
                Report { nr: prog.syscalls@[i].nr, outcome: outcomes@[i] },
            ),
{
    let reports = report_all(prog, outcomes);
    stdout_lines(&reports)
}

/// A line starts with the name of its syscall and a space, so the lines of a
/// run name the program's syscalls in the program's order.
pub proof fn lemma_line_names_syscall(rep: Report)
    ensures
        line_of(rep).subrange(0, name_of(rep.nr).len() as int + 1) == name_of(rep.nr) + seq![' '],
{
    assert(line_of(rep).subrange(0, name_of(rep.nr).len() as int + 1) =~= name_of(rep.nr) + seq![' ']);
}

/// A kernel call that failed is reported with the very value it returned: the
/// line carries that value's decimal form, which starts with a minus sign, and
/// the value itself goes to the error-code translator.
pub proof fn lemma_failure_reported_exactly(nr: SysNo, ret: i64)
    requires
        ret < 0,
    ensures
        line_of(Report { nr, outcome: Ok(ret) }) == name_of(nr) + seq![' '] + decimal(ret as int),
        decimal(ret as int)[0] == '-',
        (Report { nr, outcome: Ok::<i64, ExecError>(ret) }).kernel_error_spec() == Some(ret),
{
}

/// Distinct integers have distinct decimal forms, so no two results can be
/// reported alike.
pub proof fn lemma_decimal_injective(a: int, b: int)
    requires
        decimal(a) == decimal(b),
    ensures
        a == b,
{
    if a < 0 && b < 0 {
        assert(decimal(a).subrange(1, decimal(a).len() as int) =~= digits((-a) as nat));
        assert(decimal(b).subrange(1, decimal(b).len() as int) =~= digits((-b) as nat));
        lemma_digits_injective((-a) as nat, (-b) as nat);
    } else if a >= 0 && b >= 0 {
        lemma_digits_injective(a as nat, b as nat);
    } else if a < 0 {
        lemma_digits_no_sign(b as nat, 0);
        assert(decimal(a)[0] == '-');
    } else {
        lemma_digits_no_sign(a as nat, 0);
        assert(decimal(b)[0] == '-');
    }
}

/// No digit of a decimal form is a minus sign.
proof fn lemma_digits_no_sign(n: nat, i: int)
    requires
        0 <= i < digits(n).len(),
    ensures
        digits(n)[i] != '-',
    decreases n,
{
    if n >= 10 {
        if i < digits(n / 10).len() {
            lemma_digits_no_sign(n / 10, i);
        }
    }
}

/// Distinct digits have distinct characters.
proof fn lemma_digit_char_injective(a: nat, b: nat)
    requires
        a < 10,
        b < 10,
        digit_char(a) == digit_char(b),
    ensures
        a == b,
{
    assert(digit_char(a) as int == a + 48);
    assert(digit_char(b) as int == b + 48);
}

/// Distinct natural numbers have distinct digit sequences.
proof fn lemma_digits_injective(a: nat, b: nat)
    requires
        digits(a) == digits(b),
    ensures
        a == b,
    decreases a + b,
{
    if a < 10 && b < 10 {
        assert(digits(a)[0] == digit_char(a));
        assert(digits(b)[0] == digit_char(b));
        lemma_digit_char_injective(a, b);
    } else if a >= 10 && b >= 10 {
        let da = digits(a / 10);
        let db = digits(b / 10);
        assert(digits(a).drop_last() =~= da);
        assert(digits(b).drop_last() =~= db);
        lemma_digits_injective(a / 10, b / 10);
        assert(digits(a).last() == digit_char(a % 10));
        assert(digits(b).last() == digit_char(b % 10));
        lemma_digit_char_injective(a % 10, b % 10);
        assert(a == 10 * (a / 10) + a % 10);
        assert(b == 10 * (b / 10) + b % 10);
    } else if a < 10 {
        lemma_digits_long(b);
    } else {
        lemma_digits_long(a);
    }
}

/// Every natural number has at least one digit.
proof fn lemma_digits_nonempty(n: nat)
    ensures
        digits(n).len() >= 1,
    decreases n,
{
    if n >= 10 {
        lemma_digits_nonempty(n / 10);
    }
}

/// A number of ten or more has at least two digits.
proof fn lemma_digits_long(n: nat)
    requires
        n >= 10,
    ensures
        digits(n).len() >= 2,
{
    lemma_digits_nonempty(n / 10);
}

} // verus!
