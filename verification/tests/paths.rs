use tempfile_fast::bytepath::{cstr, resolve_path, split_parent, SEP};
use tempfile_fast::errs::ErrorKind;
use tempfile_fast::tempname::{make_candidate, make_proc_fd_path};

#[test]
fn resolve_absolute_stays() {
    let cwd = b"/work".to_vec();
    let path = b"/etc/hosts".to_vec();
    assert_eq!(resolve_path(&cwd, &path), b"/etc/hosts".to_vec());
}

#[test]
fn resolve_relative_joins() {
    let cwd = b"/work".to_vec();
    let path = b"a/b/c.txt".to_vec();
    assert_eq!(resolve_path(&cwd, &path), b"/work/a/b/c.txt".to_vec());
}

#[test]
fn resolve_relative_under_root() {
    let cwd = b"/".to_vec();
    let path = b"file".to_vec();
    assert_eq!(resolve_path(&cwd, &path), b"/file".to_vec());
}

#[test]
fn split_parent_plain() {
    let p = b"/work/a".to_vec();
    let (parent, name) = split_parent(&p).unwrap();
    assert_eq!(parent, b"/work".to_vec());
    assert_eq!(name, b"a".to_vec());
}

#[test]
fn split_parent_under_root() {
    let p = b"/a".to_vec();
    let (parent, name) = split_parent(&p).unwrap();
    assert_eq!(parent, b"/".to_vec());
    assert_eq!(name, b"a".to_vec());
}

#[test]
fn split_parent_of_root_fails() {
    let p = b"/".to_vec();
    assert_eq!(split_parent(&p).unwrap_err(), ErrorKind::NotFound);
}

#[test]
fn split_parent_trailing_separator_fails() {
    let p = b"/a/b/".to_vec();
    assert_eq!(split_parent(&p).unwrap_err(), ErrorKind::NotFound);
}

#[test]
fn cstr_appends_terminator() {
    let p = b"/tmp/x".to_vec();
    assert_eq!(cstr(&p).unwrap(), b"/tmp/x\0".to_vec());
}

#[test]
fn cstr_rejects_interior_nul() {
    let p = b"/tmp/\0x".to_vec();
    assert_eq!(cstr(&p).unwrap_err(), ErrorKind::InvalidPath);
}

#[test]
fn candidate_renders_hex_name() {
    let parent = b"/d".to_vec();
    assert_eq!(make_candidate(&parent, 0x1a), b"/d/.1a.tmp".to_vec());
}

#[test]
fn candidate_zero_value() {
    let parent = b"/d".to_vec();
    assert_eq!(make_candidate(&parent, 0), b"/d/.0.tmp".to_vec());
}

#[test]
fn candidate_largest_value() {
    let parent = b"/d".to_vec();
    assert_eq!(make_candidate(&parent, u64::MAX), b"/d/.ffffffffffffffff.tmp".to_vec());
}

#[test]
fn candidate_under_separator_terminated_dir() {
    let parent = b"/d/".to_vec();
    assert_eq!(make_candidate(&parent, 0xbeef), b"/d/.beef.tmp".to_vec());
}

#[test]
fn separator_is_slash() {
    assert_eq!(SEP, b'/');
}

#[test]
fn proc_fd_path_renders_decimal() {
    assert_eq!(make_proc_fd_path(0), b"/proc/self/fd/0".to_vec());
    assert_eq!(make_proc_fd_path(1234567890), b"/proc/self/fd/1234567890".to_vec());
}
