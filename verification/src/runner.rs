//! The command runner's decisions: which events spawn a command, and what a
//! child's exit does to the watching loop.
//!
//! The loop around these functions blocks on the event channel, spawns the
//! interpreter through the operating system and waits for it; those effects
//! stay outside. Everything the loop decides is here.

use vstd::prelude::*;

use crate::errors::SetupError;
use crate::event::ChangeEvent;

verus! {

/// The configuration of the command runner: the command interpreter, the
/// command template it runs, and whether a failing command stops the whole
/// process. Built once from the arguments and the environment; read-only
/// afterwards.
pub struct CommandSpec {
    pub shell: String,
    pub template: String,
    pub exit_on_error: bool,
}

impl CommandSpec {
    /// Builds the runner's configuration. `shell` is the value of the
    /// `SHELL` environment variable, resolved once at startup by the caller;
    /// without it there is no interpreter to run the template, which is a
    /// fatal setup error.
    pub fn new(shell: Option<String>, template: String, exit_on_error: bool) -> (r: Result<
        CommandSpec,
        SetupError,
    >)
        ensures
            shell matches Some(s) ==> (r matches Ok(c) && c.shell == s && c.template == template
                && c.exit_on_error == exit_on_error),
            shell is None ==> (r matches Err(e) && e == SetupError::MissingInterpreter),
    {
        match shell {
            Some(s) => Ok(CommandSpec { shell: s, template, exit_on_error }),
            None => Err(SetupError::MissingInterpreter),
        }
    }

    /// The loop's reaction to a finished command: with the exit-on-error
    /// flag, a failing child stops the whole process, carrying the child's
    /// exit code; otherwise watching continues.
    pub fn after_exit(&self, success: bool, code: Option<i32>) -> (r: RunDecision)
        ensures
            r == decision_for(self.exit_on_error, success, code),
    {
        if !success && self.exit_on_error {
            RunDecision::FailStop { code }
        } else {
            RunDecision::Continue
        }
    }
}

/// What the event loop does after one spawned command has finished.
#[derive(Debug, PartialEq, Eq, Structural)]
pub enum RunDecision {
    /// Keep reading events.
    Continue,
    /// Stop the whole process, reporting the child's exit code.
    FailStop { code: Option<i32> },
}

/// The decision taken after a child exits with the given outcome: stop
/// exactly when the child failed and the exit-on-error flag is set.
pub open spec fn decision_for(exit_on_error: bool, success: bool, code: Option<i32>) -> RunDecision {
    if !success && exit_on_error {
        RunDecision::FailStop { code }
    } else {
        RunDecision::Continue
    }
}

/// Which command, if any, an event triggers: created and written files
/// trigger the template on their own path; every other event kind is
/// silently ignored.
pub fn trigger_action(e: &ChangeEvent) -> (r: Option<Vec<u8>>)
    ensures
        (r is Some) == e.is_trigger(),
        r matches Some(p) ==> p@ == e.trigger_path(),
{
    match e {
        ChangeEvent::Created { path } => Some(crate::path::clone_bytes(path)),
        ChangeEvent::Written { path } => Some(crate::path::clone_bytes(path)),
        _ => None,
    }
}

/// The paths on which commands are spawned for a finite stretch of the event
/// stream, in order: one per triggering event, none for the rest.
pub open spec fn spec_trigger_paths(events: Seq<ChangeEvent>) -> Seq<Seq<u8>>
    decreases events.len(),
{
    if events.len() == 0 {
        Seq::empty()
    } else {
        let rest = spec_trigger_paths(events.drop_last());
        if events.last().is_trigger() {
            rest.push(events.last().trigger_path())
        } else {
            rest
        }
    }
}

/// The dispatch model of the event loop over a finite stretch of the stream:
/// the paths handed to spawned commands, in event order.
pub fn triggering_paths(events: &Vec<ChangeEvent>) -> (r: Vec<Vec<u8>>)
    ensures
        r@.map_values(|p: Vec<u8>| p@) == spec_trigger_paths(events@),
{
    let mut out: Vec<Vec<u8>> = Vec::new();
    let mut i: usize = 0;
    while i < events.len()
        invariant
            0 <= i <= events@.len(),
            out@.map_values(|p: Vec<u8>| p@) =~= spec_trigger_paths(events@.take(i as int)),
        decreases events@.len() - i,
    {
        match trigger_action(&events[i]) {
            Some(p) => {
                out.push(p);
            },
            None => {},
        }
        proof {
            assert(events@.take(i + 1).drop_last() =~= events@.take(i as int));
            assert(events@.take(i + 1).last() == events@[i as int]);
            assert(out@.map_values(|p: Vec<u8>| p@) =~= spec_trigger_paths(
                events@.take(i + 1),
            ));
        }
        i += 1;
    }
    proof {
        assert(events@.take(events@.len() as int) =~= events@);
    }
    out
}

/// Law: commands are serialized in event order. Extending the stream by one
/// event appends that event's command, if it triggers one, after every
/// command of the earlier events; it never reorders or interleaves them.
pub proof fn lemma_dispatch_in_event_order(events: Seq<ChangeEvent>, e: ChangeEvent)
    ensures
        e.is_trigger() ==> spec_trigger_paths(events.push(e)) == spec_trigger_paths(events).push(
            e.trigger_path(),
        ),
        !e.is_trigger() ==> spec_trigger_paths(events.push(e)) == spec_trigger_paths(events),
{
    assert(events.push(e).drop_last() =~= events);
    assert(events.push(e).last() == e);
}

/// Law: without the exit-on-error flag, no child exit ever stops the loop,
/// whatever the stream of outcomes; the runner keeps watching.
pub proof fn lemma_exit_gating_disabled(outcomes: Seq<(bool, Option<i32>)>)
    ensures
        forall|i: int|
            0 <= i < outcomes.len() ==> #[trigger] decision_for(
                false,
                outcomes[i].0,
                outcomes[i].1,
            ) is Continue,
{
}

/// Law: with the exit-on-error flag, the first failing child stops the
/// process, and the decision carries that child's exit code.
pub proof fn lemma_exit_gating_enabled(success: bool, code: Option<i32>)
    requires
        !success,
    ensures
        decision_for(true, success, code) == (RunDecision::FailStop { code }),
{
}

} // verus!
