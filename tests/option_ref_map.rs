use ref_map::OptionRefMap;
use std::cell::Cell;
use std::path::{Path, PathBuf};

#[test]
fn test_option() {
    let path: Option<PathBuf> = Some(PathBuf::from("/test"));

    let a: Option<&Path> = path.as_ref().map(|p| p.as_path());
    let b: Option<&Path> = path.ref_map(|p| p.as_path());

    assert_eq!(a, b);
}

#[test]
fn option_slice_from_index_three() {
    let values = Some(vec![4, 7, 9, 5, 6]);

    let tail = values.ref_map(|v| &v[3..]);
    let answer = [5, 6];

    assert_eq!(tail, Some(&answer[..]));
}

#[test]
fn option_none_never_calls_closure() {
    let values: Option<Vec<i32>> = None;

    let out: Option<usize> = values.ref_map(|_| panic!("closure called on None"));

    assert_eq!(out, None);
}

#[test]
fn option_calls_closure_once_on_some() {
    let calls = Cell::new(0u32);
    let values = Some(String::from("hello world\n"));

    let out = values.ref_map(|s| {
        calls.set(calls.get() + 1);
        s.trim()
    });

    assert_eq!(out, Some("hello world"));
    assert_eq!(calls.get(), 1);
}

#[test]
fn option_counts_no_call_on_none() {
    let calls = Cell::new(0u32);
    let values: Option<String> = None;

    let out = values.ref_map(|s| {
        calls.set(calls.get() + 1);
        s.len()
    });

    assert_eq!(out, None);
    assert_eq!(calls.get(), 0);
}

#[test]
fn option_result_borrows_from_input() {
    let values = Some(vec![1u8, 2, 3]);

    let out = values.ref_map(|v| v);

    assert!(std::ptr::eq(out.unwrap(), values.as_ref().unwrap()));
}

#[test]
fn option_agrees_with_as_ref_map_on_none() {
    let values: Option<Vec<i32>> = None;

    let a = values.as_ref().map(|v| v.len());
    let b = values.ref_map(|v| v.len());

    assert_eq!(a, b);
}

#[test]
fn option_owned_result_is_computed() {
    let n = Some(21u32);

    assert_eq!(n.ref_map(|x| *x * 2), Some(42u32));
}
