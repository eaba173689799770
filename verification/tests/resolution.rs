//! Path resolution, sandbox containment, and lifecycle bookkeeping.

use cgid::process::{
    strip_leading_slash, JoinRegistry, ProcessError, UpstreamProcess, UpstreamProcessBuilder,
};
use cgid::request_parser::{parse, ParseError};
use cgid::types::FsErrorKind;

#[test]
fn test_path_magic() {}

fn builder(root: &[u8]) -> UpstreamProcessBuilder {
    UpstreamProcessBuilder::new(root.to_vec(), true).unwrap()
}

#[test]
fn new_keeps_existing_root() {
    let b = builder(b"/srv/scripts");
    assert_eq!(b.root, b"/srv/scripts".to_vec());
}

#[test]
fn new_rejects_missing_root() {
    let r = UpstreamProcessBuilder::new(b"/srv/scripts".to_vec(), false);
    assert!(matches!(
        r,
        Err(ProcessError::InvalidPath(FsErrorKind::NotFound))
    ));
}

#[test]
fn strip_removes_one_leading_separator() {
    assert_eq!(strip_leading_slash(&b"/hello".to_vec()), b"hello".to_vec());
    assert_eq!(strip_leading_slash(&b"//hello".to_vec()), b"/hello".to_vec());
    assert_eq!(strip_leading_slash(&b"hello".to_vec()), b"hello".to_vec());
    assert_eq!(strip_leading_slash(&b"".to_vec()), b"".to_vec());
}

#[test]
fn candidate_path_joins_under_root() {
    let b = builder(b"/srv/scripts");
    assert_eq!(
        b.candidate_path(&b"/hello".to_vec()),
        b"/srv/scripts/hello".to_vec()
    );
    assert_eq!(b.candidate_path(&b"".to_vec()), b"/srv/scripts/".to_vec());
}

#[test]
fn build_rejects_canonical_path_outside_root() {
    let b = builder(b"/srv/scripts");
    // What a `..`-laden or symlinked request path canonicalizes to.
    let r = b.build(Ok(b"/etc/passwd".to_vec()));
    assert!(matches!(r, Err(ProcessError::RunPathNotInRoot)));
}

#[test]
fn build_rejects_sibling_with_root_prefix() {
    let b = builder(b"/srv/scripts");
    let r = b.build(Ok(b"/srv/scriptsevil".to_vec()));
    assert!(matches!(r, Err(ProcessError::RunPathNotInRoot)));
}

#[test]
fn build_accepts_contained_path() {
    let b = builder(b"/srv/scripts");
    let r = b.build(Ok(b"/srv/scripts/hello".to_vec())).unwrap();
    assert_eq!(r.exec_path, b"/srv/scripts/hello".to_vec());
    assert!(r.exec_args.is_empty());
}

#[test]
fn build_accepts_root_itself() {
    let b = builder(b"/srv/scripts");
    let r = b.build(Ok(b"/srv/scripts".to_vec())).unwrap();
    assert_eq!(r.exec_path, b"/srv/scripts".to_vec());
}

#[test]
fn build_distinguishes_missing_target() {
    let b = builder(b"/srv/scripts");
    let r = b.build(Err(FsErrorKind::NotFound));
    assert!(matches!(r, Err(ProcessError::RunPathNotExists)));
    assert!(!matches!(r, Err(ProcessError::RunPathNotInRoot)));
}

#[test]
fn build_reports_other_filesystem_errors() {
    let b = builder(b"/srv/scripts");
    let r = b.build(Err(FsErrorKind::PermissionDenied));
    assert!(matches!(
        r,
        Err(ProcessError::InvalidPath(FsErrorKind::PermissionDenied))
    ));
}

#[test]
fn run_decision_fixes_status_on_spawn() {
    let u = UpstreamProcess {
        exec_path: b"/srv/scripts/hello".to_vec(),
        exec_args: Vec::new(),
    };
    assert_eq!(u.run_decision(Ok(())), Ok(200));
    let r = u.run_decision(Err(FsErrorKind::NotFound));
    assert!(matches!(
        r,
        Err(ProcessError::ExecutionError(FsErrorKind::NotFound))
    ));
}

#[test]
fn parse_accepts_contained_canonical_target() {
    let r = parse(&b"/srv".to_vec(), Ok(b"/srv/hello".to_vec()));
    assert_eq!(r, Ok(b"/srv/hello".to_vec()));
}

#[test]
fn parse_rejects_escaping_canonical_target() {
    // What a `..`-laden or symlinked request path canonicalizes to.
    let r = parse(&b"/srv".to_vec(), Ok(b"/etc/passwd".to_vec()));
    assert!(matches!(r, Err(ParseError::InvalidPath)));
    let r = parse(&b"/srv".to_vec(), Ok(b"/srvevil".to_vec()));
    assert!(matches!(r, Err(ParseError::InvalidPath)));
}

#[test]
fn parse_distinguishes_missing_target() {
    let r = parse(&b"/srv".to_vec(), Err(FsErrorKind::NotFound));
    assert!(matches!(r, Err(ParseError::NonExistingScript)));
    assert!(!matches!(r, Err(ParseError::InvalidPath)));
}

#[test]
fn parse_reports_other_filesystem_errors() {
    let r = parse(&b"/srv".to_vec(), Err(FsErrorKind::Other));
    assert!(matches!(r, Err(ParseError::IoError(FsErrorKind::Other))));
}

#[test]
fn registry_admits_up_to_capacity() {
    let mut reg = JoinRegistry::new();
    let cap = JoinRegistry::capacity();
    assert_eq!(cap, 1024);
    for _ in 0..cap {
        assert!(reg.try_admit());
    }
    assert!(!reg.try_admit());
    reg.reap();
    assert!(reg.try_admit());
}
