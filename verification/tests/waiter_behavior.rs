use watchwait::errors::SetupError;
use watchwait::event::ChangeEvent;
use watchwait::path::AbsPath;
use watchwait::waiter::{
    choose_watch_root, find_creation, matches_creation, poll_step, resolve_target,
    should_return_immediately, PollAction,
};

fn abs(bytes: &[u8]) -> AbsPath {
    match AbsPath::from_bytes(bytes.to_vec()) {
        Some(p) => p,
        None => panic!("expected a well-formed absolute path"),
    }
}

#[test]
fn normalized_absolute_paths_resolve_to_themselves() {
    match resolve_target(&b"/tmp/some/target".to_vec()) {
        Ok(p) => assert_eq!(p.as_bytes(), &b"/tmp/some/target".to_vec()),
        Err(_) => panic!("an absolute path must resolve"),
    }
}

#[test]
fn relative_paths_resolve_to_something_absolute() {
    match resolve_target(&b"some_relative_name".to_vec()) {
        Ok(p) => {
            let bytes = p.as_bytes();
            assert_eq!(bytes[0], b'/');
            assert_ne!(bytes, &b"some_relative_name".to_vec());
            assert!(bytes.ends_with(b"/some_relative_name"));
        }
        Err(_) => panic!("a relative path must resolve against the current directory"),
    }
}

#[test]
fn dot_components_are_parsed_away() {
    match resolve_target(&b"/a/./b/../c".to_vec()) {
        Ok(p) => assert_eq!(p.as_bytes(), &b"/a/c".to_vec()),
        Err(_) => panic!("an absolute path must resolve"),
    }
}

#[test]
fn malformed_paths_are_rejected_by_the_wrapper_type() {
    for bad in [
        &b""[..],
        &b"a/b"[..],
        &b"/a//b"[..],
        &b"/a/"[..],
        &b"/a/./b"[..],
        &b"/a/../b"[..],
        &b"/."[..],
        &b"/.."[..],
    ] {
        assert!(AbsPath::from_bytes(bad.to_vec()).is_none());
    }
    for good in [&b"/"[..], &b"/a"[..], &b"/a.b/c."[..], &b"/..."[..], &b"/..a"[..]] {
        assert!(AbsPath::from_bytes(good.to_vec()).is_some());
    }
}

#[test]
fn ancestors_run_from_parent_to_root() {
    let p = abs(b"/a/b/c");
    let chain: Vec<Vec<u8>> = p.ancestors().iter().map(|a| a.as_bytes().clone()).collect();
    assert_eq!(chain, vec![b"/a/b".to_vec(), b"/a".to_vec(), b"/".to_vec()]);
}

#[test]
fn a_top_level_path_has_only_the_root_ancestor() {
    let p = abs(b"/a");
    let chain: Vec<Vec<u8>> = p.ancestors().iter().map(|a| a.as_bytes().clone()).collect();
    assert_eq!(chain, vec![b"/".to_vec()]);
}

#[test]
fn the_root_has_no_ancestors() {
    let p = abs(b"/");
    assert!(p.ancestors().is_empty());
}

#[test]
fn the_nearest_existing_ancestor_becomes_the_watch_root() {
    assert_eq!(choose_watch_root(&vec![false, false, true, true]), Ok(2));
    assert_eq!(choose_watch_root(&vec![true]), Ok(0));
}

#[test]
fn no_existing_ancestor_is_a_setup_error() {
    assert_eq!(
        choose_watch_root(&vec![false, false]),
        Err(SetupError::NoExistingAncestor)
    );
}

#[test]
fn pre_existing_target_short_circuits_unless_ignored() {
    assert!(should_return_immediately(false, true));
    assert!(!should_return_immediately(true, true));
    assert!(!should_return_immediately(false, false));
    assert!(!should_return_immediately(true, false));
}

#[test]
fn only_the_exact_target_creation_matches() {
    let target = abs(b"/watched/dir/file");
    let exact = ChangeEvent::Created { path: b"/watched/dir/file".to_vec() };
    let sibling = ChangeEvent::Created { path: b"/watched/dir/file2".to_vec() };
    let written = ChangeEvent::Written { path: b"/watched/dir/file".to_vec() };
    assert!(matches_creation(&target, &exact));
    assert!(!matches_creation(&target, &sibling));
    assert!(!matches_creation(&target, &written));
    assert!(!matches_creation(&target, &ChangeEvent::Other));
}

#[test]
fn a_creation_in_the_stream_is_found_at_its_first_position() {
    let target = abs(b"/d/t");
    let events = vec![
        ChangeEvent::Created { path: b"/d/sibling".to_vec() },
        ChangeEvent::Written { path: b"/d/t".to_vec() },
        ChangeEvent::Created { path: b"/d/t".to_vec() },
        ChangeEvent::Created { path: b"/d/t".to_vec() },
    ];
    assert_eq!(find_creation(&target, &events), Some(2));
}

#[test]
fn a_stream_without_the_target_creation_never_ends_the_wait() {
    let target = abs(b"/d/t");
    let events = vec![
        ChangeEvent::Created { path: b"/d/other".to_vec() },
        ChangeEvent::Removed { path: b"/d/t".to_vec() },
    ];
    assert_eq!(find_creation(&target, &events), None);
}

#[test]
fn polling_stops_exactly_when_the_file_exists() {
    assert_eq!(poll_step(true), PollAction::Done);
    assert_eq!(poll_step(false), PollAction::SleepAndRetry);
}

#[test]
fn setup_errors_describe_their_step() {
    assert_eq!(
        SetupError::MissingInterpreter.describe(),
        "the SHELL environment variable is not set"
    );
    assert_eq!(
        SetupError::UnresolvablePath.describe(),
        "unable to resolve the target path to an absolute path"
    );
    assert_eq!(
        SetupError::NoExistingAncestor.describe(),
        "unable to find an existing parent directory for the target"
    );
}
