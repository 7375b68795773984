use tempfile_fast::errs::ErrorKind;
use tempfile_fast::fsmodel::FsOutcome;
use tempfile_fast::persistable::{Backing, FlowState, PersistableTempFile};
use tempfile_fast::sponge::{plan_metadata, zero_success, MetadataPlan, MetadataProbe, Sponge};

#[test]
fn unnamed_backing_when_platform_supports_it() {
    let f = PersistableTempFile::new_in(true);
    assert!(matches!(f.backing, Backing::Unnamed));
    assert!(f.content.is_empty());
}

#[test]
fn fallback_backing_when_platform_does_not() {
    let f = PersistableTempFile::new_in(false);
    assert!(matches!(f.backing, Backing::Fallback));
    assert!(f.content.is_empty());
}

#[test]
fn writes_accumulate_in_order() {
    let mut f = PersistableTempFile::new_in(true);
    assert_eq!(f.write(&b"hello ".to_vec()), 6);
    assert_eq!(f.write(&b"world".to_vec()), 5);
    assert_eq!(f.content, b"hello world".to_vec());
}

#[test]
fn noclobber_succeeds_on_free_path() {
    let f = PersistableTempFile::new_in(true);
    assert!(f.persist_noclobber(FsOutcome::Success).is_ok());
}

#[test]
fn noclobber_on_occupied_path_returns_already_exists() {
    let mut f = PersistableTempFile::new_in(true);
    f.write(&b"yello".to_vec());
    let e = f.persist_noclobber(FsOutcome::Occupied).unwrap_err();
    assert_eq!(e.kind, ErrorKind::AlreadyExists);
    assert!(matches!(e.file.backing, Backing::Unnamed));
}

#[test]
fn failed_noclobber_keeps_buffered_content() {
    let mut f = PersistableTempFile::new_in(false);
    f.write(&b"precious bytes".to_vec());
    let e = f.persist_noclobber(FsOutcome::Failure).unwrap_err();
    assert_eq!(e.kind, ErrorKind::Io);
    assert!(matches!(e.file.backing, Backing::Fallback));
    assert_eq!(e.file.content, b"precious bytes".to_vec());
    // the handle is still fully usable: keep writing and publish
    let mut f = e.file;
    f.write(&b" and more".to_vec());
    assert_eq!(f.content, b"precious bytes and more".to_vec());
}

#[test]
fn rename_flow_direct_link_finishes() {
    let f = PersistableTempFile::new_in(true);
    let mut flow = f.persist_by_rename(b"/d/dest".to_vec(), b"/d".to_vec());
    assert!(matches!(flow.state, FlowState::LinkingDest));
    flow.step(FsOutcome::Success);
    assert!(flow.is_finished());
    assert!(flow.finish().is_ok());
}

#[test]
fn rename_flow_recovers_from_occupied_destination() {
    // the scenario behind no-clobber recovery: a refused exclusive
    // publish, then the rename-based protocol to the same path
    let mut f = PersistableTempFile::new_in(true);
    f.write(&b"yello".to_vec());
    let e = f.persist_noclobber(FsOutcome::Occupied).unwrap_err();
    assert_eq!(e.kind, ErrorKind::AlreadyExists);

    let mut flow = e.file.persist_by_rename(b"/d/dest".to_vec(), b"/d".to_vec());
    flow.step(FsOutcome::Occupied); // destination still occupied
    let candidate = match &flow.state {
        FlowState::LinkingSibling(c) => c.clone(),
        _ => panic!("expected a sibling candidate"),
    };
    assert!(candidate.starts_with(b"/d/."));
    assert!(candidate.ends_with(b".tmp"));
    flow.step(FsOutcome::Success); // sibling linked
    assert!(matches!(flow.state, FlowState::Renaming(_)));
    flow.step(FsOutcome::Success); // renamed onto destination
    assert!(flow.is_finished());
    assert!(flow.finish().is_ok());
}

#[test]
fn rename_flow_draws_fresh_candidates_on_collision() {
    let f = PersistableTempFile::new_in(true);
    let mut flow = f.persist_by_rename(b"/d/dest".to_vec(), b"/d".to_vec());
    flow.step(FsOutcome::Occupied);
    let first = match &flow.state {
        FlowState::LinkingSibling(c) => c.clone(),
        _ => panic!("expected a sibling candidate"),
    };
    flow.step(FsOutcome::Occupied);
    let second = match &flow.state {
        FlowState::LinkingSibling(c) => c.clone(),
        _ => panic!("expected a sibling candidate"),
    };
    // 64 bits of randomness: a repeated draw would be astonishing
    assert_ne!(first, second);
    assert_eq!(flow.attempts, 2);
}

#[test]
fn rename_flow_fatal_sibling_error_reattaches_handle() {
    let mut f = PersistableTempFile::new_in(true);
    f.write(&b"kept".to_vec());
    let mut flow = f.persist_by_rename(b"/d/dest".to_vec(), b"/d".to_vec());
    flow.step(FsOutcome::Occupied);
    flow.step(FsOutcome::Failure); // sibling link failed for another reason
    assert!(flow.is_finished());
    let e = flow.finish().unwrap_err();
    assert_eq!(e.kind, ErrorKind::Io);
    assert_eq!(e.file.content, b"kept".to_vec());
}

#[test]
fn rename_flow_failed_rename_removes_sibling_then_fails() {
    let mut f = PersistableTempFile::new_in(true);
    f.write(&b"kept".to_vec());
    let mut flow = f.persist_by_rename(b"/d/dest".to_vec(), b"/d".to_vec());
    flow.step(FsOutcome::Occupied);
    flow.step(FsOutcome::Success); // sibling linked
    flow.step(FsOutcome::Failure); // rename failed
    assert!(matches!(flow.state, FlowState::Removing(_)));
    flow.step(FsOutcome::Success); // best-effort removal worked
    let e = flow.finish().unwrap_err();
    assert_eq!(e.kind, ErrorKind::Io);
    assert_eq!(e.file.content, b"kept".to_vec());
}

#[test]
fn rename_flow_swallows_removal_failure() {
    let f = PersistableTempFile::new_in(true);
    let mut flow = f.persist_by_rename(b"/d/dest".to_vec(), b"/d".to_vec());
    flow.step(FsOutcome::Occupied);
    flow.step(FsOutcome::Success);
    flow.step(FsOutcome::Failure); // rename failed
    flow.step(FsOutcome::Failure); // and removing the sibling failed too
    // the rename failure is what is reported, not the removal failure
    let e = flow.finish().unwrap_err();
    assert_eq!(e.kind, ErrorKind::Io);
}

#[test]
fn rename_flow_exhausts_retries() {
    let f = PersistableTempFile::new_in(true);
    let mut flow = f.persist_by_rename(b"/d/dest".to_vec(), b"/d".to_vec());
    flow.step(FsOutcome::Occupied); // destination occupied: first candidate drawn
    let mut steps: u64 = 0;
    while !flow.is_finished() {
        flow.step(FsOutcome::Occupied); // every candidate collides
        steps += 1;
        assert!(steps <= 40000, "protocol must give up after the retry cap");
    }
    assert_eq!(steps, 32768);
    let e = flow.finish().unwrap_err();
    assert_eq!(e.kind, ErrorKind::RetriesExhausted);
}

#[test]
fn fallback_flow_delegates_whole_overwrite() {
    let mut f = PersistableTempFile::new_in(false);
    f.write(&b"same behaviour".to_vec());
    let mut flow = f.persist_by_rename(b"/d/dest".to_vec(), b"/d".to_vec());
    assert!(matches!(flow.state, FlowState::Delegating));
    flow.step(FsOutcome::Success);
    assert!(flow.finish().is_ok());
}

#[test]
fn fallback_flow_failure_reattaches_handle() {
    let mut f = PersistableTempFile::new_in(false);
    f.write(&b"still here".to_vec());
    let mut flow = f.persist_by_rename(b"/d/dest".to_vec(), b"/d".to_vec());
    flow.step(FsOutcome::Failure);
    let e = flow.finish().unwrap_err();
    assert_eq!(e.kind, ErrorKind::Io);
    assert!(matches!(e.file.backing, Backing::Fallback));
    assert_eq!(e.file.content, b"still here".to_vec());
}

#[test]
fn sponge_first_write_scenario() {
    // a/b does not exist yet: the resolved path still has a parent,
    // and the commit publishes the written content with nothing to
    // copy from a missing destination
    let sponge = Sponge::new_for(&b"/w".to_vec(), &b"a/b/c.txt".to_vec(), true);
    let mut sponge = sponge.unwrap();
    assert_eq!(sponge.dest, b"/w/a/b/c.txt".to_vec());
    assert_eq!(sponge.parent, b"/w/a/b".to_vec());
    assert_eq!(sponge.write(&b"fresh content".to_vec()), 13);
    assert_eq!(plan_metadata(&MetadataProbe::Missing), MetadataPlan::Skip);
    let mut flow = sponge.commit();
    flow.step(FsOutcome::Success); // destination was free: direct link
    assert!(flow.finish().is_ok());
}

#[test]
fn sponge_rejects_parentless_destination() {
    let r = Sponge::new_for(&b"/".to_vec(), &b"/".to_vec(), true);
    assert!(matches!(r, Err(ErrorKind::NotFound)));
}

#[test]
fn sponge_buffers_without_touching_destination() {
    let mut sponge = Sponge::new_for(&b"/w".to_vec(), &b"out.txt".to_vec(), false).unwrap();
    sponge.write(&b"one ".to_vec());
    sponge.write(&b"two".to_vec());
    assert_eq!(sponge.file.content, b"one two".to_vec());
    let flow = sponge.commit();
    assert_eq!(flow.file.content, b"one two".to_vec());
}

#[test]
fn metadata_fidelity_scenario() {
    // destination owned by uid 1000, gid 1000, mode 0644: the commit
    // must carry exactly those over, whatever the process umask did
    // to the temporary file
    let probe = MetadataProbe::Found { mode: 0o644, uid: 1000, gid: 1000 };
    assert_eq!(plan_metadata(&probe), MetadataPlan::Apply { mode: 0o644, uid: 1000, gid: 1000 });
}

#[test]
fn metadata_probe_failure_aborts() {
    assert_eq!(plan_metadata(&MetadataProbe::Unreadable), MetadataPlan::Abort);
}

#[test]
fn zero_is_success() {
    assert!(zero_success(0).is_ok());
    assert_eq!(zero_success(-1).unwrap_err(), ErrorKind::Io);
}
