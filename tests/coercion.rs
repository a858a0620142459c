use hdexecutor::coerce::{
    var_to_i32, var_to_i64, var_to_path, var_to_str, var_to_u32, var_to_u64, var_to_usize,
    var_to_vec, virtualize,
};
use hdexecutor::model::{Coercion, ExecError, ResolutionError, VariableType};

fn mismatch(k: Coercion) -> ExecError {
    ExecError::ArgumentResolution(ResolutionError::Mismatch(k))
}

#[test]
fn integer_coercions_wrap() {
    let v = VariableType::Long(-1);
    assert_eq!(var_to_u32(&v), Ok(u32::MAX));
    assert_eq!(var_to_u64(&v), Ok(u64::MAX));
    assert_eq!(var_to_i32(&v), Ok(-1));
    assert_eq!(var_to_i64(&v), Ok(-1));
    assert_eq!(var_to_usize(&v), Ok(usize::MAX));
    let big = VariableType::Long(0x1_0000_0005);
    assert_eq!(var_to_u32(&big), Ok(5));
    assert_eq!(var_to_i32(&big), Ok(5));
    assert_eq!(var_to_u64(&big), Ok(0x1_0000_0005));
    let octal = VariableType::Long(0o644);
    assert_eq!(var_to_u32(&octal), Ok(420));
}

#[test]
fn integer_coercions_reject_other_variants() {
    let s = VariableType::Str(String::from("abc"));
    assert_eq!(var_to_u32(&s), Err(mismatch(Coercion::U32)));
    assert_eq!(var_to_u64(&s), Err(mismatch(Coercion::U64)));
    assert_eq!(var_to_i32(&VariableType::VoidPtr), Err(mismatch(Coercion::I32)));
    assert_eq!(var_to_i64(&VariableType::Unknown), Err(mismatch(Coercion::I64)));
    assert_eq!(
        var_to_usize(&VariableType::UCharPtr(None, 4)),
        Err(mismatch(Coercion::Usize))
    );
}

#[test]
fn string_coercion() {
    let s = VariableType::Str(String::from("hi"));
    assert_eq!(var_to_str(&s), Ok(String::from("hi")));
    assert_eq!(var_to_str(&VariableType::Long(3)), Err(mismatch(Coercion::Str)));
}

#[test]
fn string_to_buffer_fails() {
    let s = VariableType::Str(String::from("hi"));
    assert_eq!(var_to_vec(&s), Err(mismatch(Coercion::Buffer)));
    assert_eq!(var_to_vec(&VariableType::MmapBase), Err(mismatch(Coercion::Buffer)));
}

#[test]
fn absent_buffer_is_zero_filled() {
    let v = VariableType::UCharPtr(None, 8192);
    let b = var_to_vec(&v).unwrap();
    assert_eq!(b.len(), 8192);
    assert!(b.iter().all(|x| *x == 0));
    assert_eq!(var_to_vec(&VariableType::UCharPtr(None, 0)), Ok(Vec::new()));
}

#[test]
fn present_buffer_is_copied() {
    let v = VariableType::UCharPtr(Some(vec![1, 2, 3]), 3);
    assert_eq!(var_to_vec(&v), Ok(vec![1, 2, 3]));
}

#[test]
fn path_is_rooted_and_terminated() {
    let v = VariableType::Str(String::from("/x"));
    assert_eq!(var_to_path(&v, "/mnt/img"), Ok(String::from("/mnt/img/x\0")));
    assert_eq!(var_to_path(&VariableType::Long(1), "/mnt"), Err(mismatch(Coercion::Path)));
}

#[test]
fn virtualize_keeps_text_as_it_is() {
    assert_eq!(virtualize("/mnt", "/a/../b//c"), "/mnt/a/../b//c\0");
    assert_eq!(virtualize("", ""), "\0");
    assert_eq!(virtualize("/m", ""), "/m\0");
}

#[test]
fn virtualize_distinct_paths_stay_distinct() {
    let a = virtualize("/mnt", "/a");
    let b = virtualize("/mnt", "/b");
    let c = virtualize("/mnt", "/a/");
    assert_ne!(a, b);
    assert_ne!(a, c);
    assert!(a.starts_with("/mnt"));
    assert!(a.ends_with('\0'));
    assert_eq!(a.matches('\0').count(), 1);
}
