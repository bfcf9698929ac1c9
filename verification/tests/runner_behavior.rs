use watchwait::errors::SetupError;
use watchwait::event::ChangeEvent;
use watchwait::runner::{trigger_action, triggering_paths, CommandSpec, RunDecision};

fn spec_with(exit_on_error: bool) -> CommandSpec {
    match CommandSpec::new(
        Some(String::from("/bin/sh")),
        String::from("echo hi"),
        exit_on_error,
    ) {
        Ok(c) => c,
        Err(_) => panic!("building a command spec with a shell must succeed"),
    }
}

#[test]
fn command_spec_keeps_its_inputs() {
    let c = spec_with(true);
    assert_eq!(c.shell, "/bin/sh");
    assert_eq!(c.template, "echo hi");
    assert!(c.exit_on_error);
}

#[test]
fn command_spec_without_shell_is_a_setup_error() {
    match CommandSpec::new(None, String::from("echo hi"), false) {
        Ok(_) => panic!("no interpreter must be a setup error"),
        Err(e) => assert_eq!(e, SetupError::MissingInterpreter),
    }
}

#[test]
fn written_and_created_events_trigger() {
    let w = ChangeEvent::Written { path: b"/tmp/a".to_vec() };
    let c = ChangeEvent::Created { path: b"/tmp/b".to_vec() };
    assert_eq!(trigger_action(&w), Some(b"/tmp/a".to_vec()));
    assert_eq!(trigger_action(&c), Some(b"/tmp/b".to_vec()));
}

#[test]
fn other_event_kinds_are_ignored() {
    let r = ChangeEvent::Removed { path: b"/tmp/a".to_vec() };
    let n = ChangeEvent::Renamed { from: b"/tmp/a".to_vec(), to: b"/tmp/b".to_vec() };
    assert_eq!(trigger_action(&r), None);
    assert_eq!(trigger_action(&n), None);
    assert_eq!(trigger_action(&ChangeEvent::Other), None);
}

#[test]
fn environment_path_matches_each_triggering_file() {
    // distinct watched files each propagate their own path
    for p in [&b"/watch/one"[..], &b"/watch/two"[..], &b"/watch/three"[..]] {
        let e = ChangeEvent::Written { path: p.to_vec() };
        assert_eq!(trigger_action(&e), Some(p.to_vec()));
    }
}

#[test]
fn commands_are_dispatched_in_event_order() {
    let events = vec![
        ChangeEvent::Written { path: b"/w/a".to_vec() },
        ChangeEvent::Removed { path: b"/w/a".to_vec() },
        ChangeEvent::Created { path: b"/w/b".to_vec() },
        ChangeEvent::Other,
        ChangeEvent::Written { path: b"/w/a".to_vec() },
    ];
    let paths = triggering_paths(&events);
    assert_eq!(
        paths,
        vec![b"/w/a".to_vec(), b"/w/b".to_vec(), b"/w/a".to_vec()]
    );
}

#[test]
fn failing_child_stops_only_with_the_flag() {
    let gated = spec_with(true);
    let ungated = spec_with(false);
    assert_eq!(
        gated.after_exit(false, Some(2)),
        RunDecision::FailStop { code: Some(2) }
    );
    assert_eq!(ungated.after_exit(false, Some(2)), RunDecision::Continue);
}

#[test]
fn ungated_runner_survives_many_failures() {
    let ungated = spec_with(false);
    for code in 1..64 {
        assert_eq!(ungated.after_exit(false, Some(code)), RunDecision::Continue);
    }
    // a child killed by a signal has no exit code; still not fatal here
    assert_eq!(ungated.after_exit(false, None), RunDecision::Continue);
}

#[test]
fn successful_child_never_stops_the_loop() {
    let gated = spec_with(true);
    assert_eq!(gated.after_exit(true, Some(0)), RunDecision::Continue);
}
