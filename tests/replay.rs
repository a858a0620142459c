use hdexecutor::dispatch::{check_args, prepare_call, shape_of, KernelCall};
use hdexecutor::model::{Arg, Coercion, ExecError, Program, ResolutionError, SysNo, Syscall, VariableType};
use hdexecutor::replay::{
    append_decimal, descriptors_to_close, output_lines, plan_program, plan_syscall, report_all,
    syscall_name, Report,
};
use hdexecutor::resolve::{resolve_arg, resolve_args};

fn lit(v: i64) -> Arg {
    Arg { value: Some(v), index: None, is_variable: false }
}

fn var(i: usize) -> Arg {
    Arg { value: None, index: Some(i), is_variable: true }
}

fn call(nr: SysNo, args: Vec<Arg>) -> Syscall {
    Syscall { nr, args }
}

fn program(variables: Vec<VariableType>, syscalls: Vec<Syscall>) -> Program {
    Program { variables, syscalls, active_fds: Vec::new() }
}

const CREATE_WRONLY: i64 = 0o100 | 0o1;

/// open("/x", CREATE|WRONLY, 0644); write(fd, "hi", 2); fsync(fd)
fn create_write_sync() -> Program {
    program(
        vec![
            VariableType::Str(String::from("/x")),
            VariableType::Long(3),
            VariableType::Str(String::from("hi")),
        ],
        vec![
            call(SysNo::Open, vec![var(0), lit(CREATE_WRONLY), lit(0o644)]),
            call(SysNo::Write, vec![var(1), var(2), lit(2)]),
            call(SysNo::Fsync, vec![var(1)]),
        ],
    )
}

#[test]
fn literal_resolves_to_integer() {
    let p = program(vec![VariableType::Str(String::from("s"))], vec![]);
    match resolve_arg(&p, &lit(-42)) {
        Ok(VariableType::Long(n)) => assert_eq!(n, -42),
        other => panic!("unexpected {:?}", other),
    }
}

#[test]
fn variable_resolves_to_table_entry() {
    let p = program(
        vec![VariableType::Long(9), VariableType::UCharPtr(Some(vec![7, 8]), 2)],
        vec![],
    );
    match resolve_arg(&p, &var(1)) {
        Ok(VariableType::UCharPtr(Some(b), 2)) => assert_eq!(b, vec![7, 8]),
        other => panic!("unexpected {:?}", other),
    }
}

#[test]
fn resolution_errors() {
    let p = program(vec![VariableType::Long(9)], vec![]);
    assert_eq!(
        resolve_arg(&p, &var(1)).unwrap_err(),
        ExecError::ArgumentResolution(ResolutionError::IndexOutOfRange(1))
    );
    let no_index = Arg { value: Some(1), index: None, is_variable: true };
    assert_eq!(
        resolve_arg(&p, &no_index).unwrap_err(),
        ExecError::ArgumentResolution(ResolutionError::MalformedArgument)
    );
    let no_value = Arg { value: None, index: Some(0), is_variable: false };
    assert_eq!(
        resolve_arg(&p, &no_value).unwrap_err(),
        ExecError::ArgumentResolution(ResolutionError::MalformedArgument)
    );
    assert_eq!(
        resolve_args(&p, &vec![var(0), var(5), var(7)]).unwrap_err(),
        ExecError::ArgumentResolution(ResolutionError::IndexOutOfRange(5))
    );
    assert_eq!(resolve_args(&p, &vec![lit(1), var(0)]).unwrap().len(), 2);
}

#[test]
fn shapes_of_supported_and_unsupported() {
    assert_eq!(
        shape_of(SysNo::Open),
        Some(vec![Coercion::Path, Coercion::U32, Coercion::U32])
    );
    assert_eq!(shape_of(SysNo::Stat), None);
    assert_eq!(shape_of(SysNo::Lstat), None);
    assert_eq!(shape_of(SysNo::Getxattr), None);
}

#[test]
fn check_args_reports_first_fault() {
    let vars = vec![VariableType::Long(1), VariableType::Long(2)];
    let kinds = vec![Coercion::I32, Coercion::Buffer, Coercion::Usize];
    assert_eq!(check_args(&vars, &kinds), Some(ResolutionError::Mismatch(Coercion::Buffer)));
    let kinds = vec![Coercion::I32, Coercion::I32, Coercion::Usize];
    assert_eq!(check_args(&vars, &kinds), Some(ResolutionError::MissingArgument(2)));
    let kinds = vec![Coercion::I32, Coercion::Unused];
    assert_eq!(check_args(&vars, &kinds), None);
}

#[test]
fn unsupported_syscall_is_refused() {
    let r = prepare_call(SysNo::Stat, &vec![VariableType::Str(String::from("/a"))], "/mnt");
    assert_eq!(r.unwrap_err(), ExecError::UnsupportedSyscall(SysNo::Stat));
}

#[test]
fn read_gets_zeroed_buffer() {
    let vars = vec![
        VariableType::Long(4),
        VariableType::UCharPtr(None, 16),
        VariableType::Long(16),
    ];
    match prepare_call(SysNo::Read, &vars, "/mnt").unwrap() {
        KernelCall::Read { fd, buf, count } => {
            assert_eq!(fd, 4);
            assert_eq!(buf, vec![0u8; 16]);
            assert_eq!(count, 16);
        }
        other => panic!("unexpected {:?}", other),
    }
}

#[test]
fn getdents_ignores_its_buffer_argument() {
    let vars = vec![VariableType::Long(5), VariableType::Unknown, VariableType::Long(4096)];
    match prepare_call(SysNo::Getdents, &vars, "/mnt").unwrap() {
        KernelCall::Getdents { fd, count } => {
            assert_eq!(fd, 5);
            assert_eq!(count, 4096);
        }
        other => panic!("unexpected {:?}", other),
    }
}

#[test]
fn sendfile_keeps_low_byte_of_placeholder() {
    let vars = vec![
        VariableType::Long(1),
        VariableType::Long(2),
        VariableType::Long(0x1ff),
        VariableType::Long(10),
    ];
    match prepare_call(SysNo::Sendfile, &vars, "/mnt").unwrap() {
        KernelCall::Sendfile { out_fd, in_fd, offset, count } => {
            assert_eq!((out_fd, in_fd, offset, count), (1, 2, 0xff, 10));
        }
        other => panic!("unexpected {:?}", other),
    }
}

#[test]
fn setxattr_shapes_every_argument() {
    let vars = vec![
        VariableType::Str(String::from("/f")),
        VariableType::Str(String::from("user.k")),
        VariableType::UCharPtr(Some(vec![b'v']), 1),
        VariableType::Long(1),
        VariableType::Long(0),
    ];
    match prepare_call(SysNo::Setxattr, &vars, "/m").unwrap() {
        KernelCall::Setxattr { path, name, value, size, flags } => {
            assert_eq!(path, "/m/f\0");
            assert_eq!(name, "user.k");
            assert_eq!(value, vec![b'v']);
            assert_eq!((size, flags), (1, 0));
        }
        other => panic!("unexpected {:?}", other),
    }
}

#[test]
fn mismatched_argument_is_reported() {
    let vars = vec![VariableType::Long(1), VariableType::Long(2)];
    assert_eq!(
        prepare_call(SysNo::Rename, &vars, "/m").unwrap_err(),
        ExecError::ArgumentResolution(ResolutionError::Mismatch(Coercion::Path))
    );
    assert_eq!(
        prepare_call(SysNo::Fsync, &vec![], "/m").unwrap_err(),
        ExecError::ArgumentResolution(ResolutionError::MissingArgument(0))
    );
}

#[test]
fn open_write_fsync_are_planned_and_reported() {
    let p = create_write_sync();
    let plans = plan_program(&p, "/mnt/0000fe00");
    assert_eq!(plans.len(), 3);
    match &plans[0] {
        Ok(KernelCall::Open { path, flags, mode }) => {
            assert_eq!(path, "/mnt/0000fe00/x\0");
            assert_eq!(*flags, 0o101);
            assert_eq!(*mode, 0o644);
        }
        other => panic!("unexpected {:?}", other),
    }
    match &plans[1] {
        Ok(KernelCall::Write { fd, buf, count }) => {
            assert_eq!((*fd, buf.as_str(), *count), (3, "hi", 2));
        }
        other => panic!("unexpected {:?}", other),
    }
    match &plans[2] {
        Ok(KernelCall::Fsync { fd }) => assert_eq!(*fd, 3),
        other => panic!("unexpected {:?}", other),
    }
    let lines = output_lines(&p, &vec![Ok(3), Ok(2), Ok(0)]);
    assert_eq!(lines, vec!["SYS_open 3", "SYS_write 2", "SYS_fsync 0"]);
}

#[test]
fn bad_index_still_one_line_per_syscall() {
    let p = program(
        vec![VariableType::Str(String::from("/d"))],
        vec![
            call(SysNo::Mkdir, vec![var(0), lit(0o755)]),
            call(SysNo::Rmdir, vec![var(4)]),
            call(SysNo::Rmdir, vec![var(0)]),
        ],
    );
    let plans = plan_program(&p, "/mnt");
    let errors: Vec<&ExecError> = plans.iter().filter_map(|r| r.as_ref().err()).collect();
    assert_eq!(
        errors,
        vec![&ExecError::ArgumentResolution(ResolutionError::IndexOutOfRange(4))]
    );
    let outcomes = vec![Ok(0), Err(plans[1].clone().unwrap_err()), Ok(0)];
    let reports = report_all(&p, &outcomes);
    assert_eq!(reports.iter().filter(|r| r.call_error().is_some()).count(), 1);
    let lines = output_lines(&p, &outcomes);
    assert_eq!(lines.len(), p.syscalls.len());
    assert_eq!(lines, vec!["SYS_mkdir 0", "SYS_rmdir error", "SYS_rmdir 0"]);
}

#[test]
fn unlink_failure_is_reported_and_run_goes_on() {
    let p = program(
        vec![VariableType::Str(String::from("/nope"))],
        vec![call(SysNo::Unlink, vec![var(0)]), call(SysNo::Syncfs, vec![lit(3)])],
    );
    let plans = plan_program(&p, "/mnt");
    match &plans[0] {
        Ok(KernelCall::Unlink { path }) => assert_eq!(path, "/mnt/nope\0"),
        other => panic!("unexpected {:?}", other),
    }
    assert!(matches!(plans[1], Ok(KernelCall::Syncfs { fd: 3 })));
    let outcomes = vec![Ok(-2), Ok(0)];
    let reports = report_all(&p, &outcomes);
    assert_eq!(reports[0].kernel_error(), Some(-2));
    assert_eq!(reports[1].kernel_error(), None);
    assert_eq!(output_lines(&p, &outcomes), vec!["SYS_unlink -2", "SYS_syncfs 0"]);
}

#[test]
fn plan_syscall_resolves_before_dispatch() {
    let p = program(vec![], vec![]);
    assert_eq!(
        plan_syscall(&p, &call(SysNo::Stat, vec![var(0)]), "/m").unwrap_err(),
        ExecError::ArgumentResolution(ResolutionError::IndexOutOfRange(0))
    );
    assert_eq!(
        plan_syscall(&p, &call(SysNo::Stat, vec![lit(0)]), "/m").unwrap_err(),
        ExecError::UnsupportedSyscall(SysNo::Stat)
    );
}

#[test]
fn failed_value_is_printed_unchanged() {
    let r = Report { nr: SysNo::Read, outcome: Ok(i64::MIN) };
    assert_eq!(r.stdout_line(), "SYS_read -9223372036854775808");
    assert_eq!(r.kernel_error(), Some(i64::MIN));
    let r = Report { nr: SysNo::Lseek, outcome: Ok(i64::MAX) };
    assert_eq!(r.stdout_line(), "SYS_lseek 9223372036854775807");
    let r = Report { nr: SysNo::Access, outcome: Ok(-13) };
    assert_eq!(r.stdout_line(), "SYS_access -13");
}

#[test]
fn decimal_forms() {
    for n in [0i64, 7, 10, 99, 100, -1, -10, 1234567890, i64::MIN, i64::MAX] {
        let mut s = String::from("x");
        append_decimal(&mut s, n);
        assert_eq!(s, format!("x{}", n));
    }
}

#[test]
fn names_follow_the_usual_spelling() {
    assert_eq!(syscall_name(SysNo::Getdents), "SYS_getdents64");
    assert_eq!(syscall_name(SysNo::Pread), "SYS_pread64");
    assert_eq!(syscall_name(SysNo::Removexattr), "SYS_removexattr");
}

#[test]
fn descriptors_are_narrowed_to_32_bits() {
    let mut p = program(vec![], vec![]);
    p.active_fds = vec![3, -1, 0x1_0000_0004];
    assert_eq!(descriptors_to_close(&p), vec![3, -1, 4]);
    assert_eq!(descriptors_to_close(&program(vec![], vec![])), Vec::<i32>::new());
}
