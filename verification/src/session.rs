//! Session controller: owns the lifecycle of "the script that is currently
//! executing" — starting, probing, and forcibly stopping it.
//!
//! The operating-system side of a session (the spawned thread, the liveness
//! probe, the forced-termination primitive, the confirmation prompt) lives
//! in the host; the host performs those steps and feeds the observed facts
//! in as plain values. The controller holds the decisions and the tracked
//! state, so every transition is checked here.

use vstd::prelude::*;

verus! {

/// What the liveness probe of the tracked thread reported: the execution
/// context is still active, it has exited, or the probe itself failed.
#[derive(Clone, Copy, PartialEq, Eq, Structural, Debug)]
pub enum ProbeResult {
    Alive,
    Exited,
    Failed,
}

/// Exit-code value the operating system reports for a thread that is still
/// running.
pub const STILL_ACTIVE_EXIT_CODE: u32 = 259;

/// Decode a raw exit-code query into a probe result: the probe fails when
/// the query fails, and the thread counts as alive exactly when the query
/// succeeded with the still-active code.
pub fn interpret_probe(query_ok: bool, exit_code: u32) -> (r: ProbeResult)
    ensures
        r is Alive <==> (query_ok && exit_code == STILL_ACTIVE_EXIT_CODE),
        r is Failed <==> !query_ok,
        r is Exited <==> (query_ok && exit_code != STILL_ACTIVE_EXIT_CODE),
{
    if !query_ok {
        ProbeResult::Failed
    } else if exit_code == STILL_ACTIVE_EXIT_CODE {
        ProbeResult::Alive
    } else {
        ProbeResult::Exited
    }
}

/// Outcome of a plain run request.
#[derive(Clone, Copy, PartialEq, Eq, Structural, Debug)]
pub enum RunOutcome {
    /// The named file is absent: one error is reported, nothing is mutated,
    /// no thread is spawned.
    NotFound,
    /// The run proceeds: the host spawns exactly one execution thread.
    Started,
}

/// Outcome of a stop-then-run request.
#[derive(Clone, Copy, PartialEq, Eq, Structural, Debug)]
pub enum StopRunOutcome {
    /// A script was running and the user declined the stop prompt: no
    /// termination, no spawn, no mutation.
    Declined,
    /// A script was running, the user confirmed, but no terminable handle
    /// could be obtained: the whole request aborts unchanged.
    TerminateFailed,
    /// The stop gate passed but the named file is absent: one error is
    /// reported, nothing is mutated.
    NotFound,
    /// The run proceeds.
    Started,
}

/// Outcome of a reload request.
#[derive(Clone, Copy, PartialEq, Eq, Structural, Debug)]
pub enum ReloadOutcome {
    /// No script has ever been selected: the reload is a no-op.
    NoSelection,
    /// The selected script's file is absent: one error is reported, nothing
    /// is mutated.
    NotFound,
    /// The run proceeds.
    Started,
}

/// Mathematical view of the controller: the selected name and the name of
/// the tracked session, if one is tracked.
pub struct ControllerView {
    pub selected: Seq<char>,
    pub session: Option<Seq<char>>,
}

/// The UI-thread-owned session state: the name of the last script the user
/// explicitly chose, and the script name of the tracked session. The opaque
/// thread handle itself stays with the host, beside this value, and is
/// replaced whenever a new session is tracked.
pub struct SessionController {
    pub selected: String,
    pub session: Option<String>,
}

impl View for SessionController {
    type V = ControllerView;

    open spec fn view(&self) -> ControllerView {
        ControllerView {
            selected: self.selected@,
            session: match self.session {
                Some(n) => Some(n@),
                None => None,
            },
        }
    }
}

impl SessionController {
    /// Initially no script is selected and no session is tracked.
    pub fn new() -> (r: SessionController)
        ensures
            r@.selected == Seq::<char>::empty(),
            r@.session is None,
    {
        SessionController { selected: String::new(), session: None }
    }

    /// Whether the tracked execution thread is still running: true exactly
    /// when a session is tracked and the liveness probe reported it alive;
    /// false when nothing is tracked or the probe failed.
    pub fn is_running(&self, probe: ProbeResult) -> (r: bool)
        ensures
            r == (self@.session is Some && probe is Alive),
    {
        match (&self.session, probe) {
            (Some(_), ProbeResult::Alive) => true,
            _ => false,
        }
    }

    /// Whether a forced termination is due: a session is tracked, its
    /// thread is alive, and the user confirmed the stop prompt. The host
    /// attempts exactly one termination when this holds, and none
    /// otherwise.
    pub fn should_terminate(&self, probe: ProbeResult, confirmed: bool) -> (r: bool)
        ensures
            r == (self@.session is Some && probe is Alive && confirmed),
    {
        self.is_running(probe) && confirmed
    }

    /// Initiate a run of the named script, `file_exists` being whether its
    /// file is present under the scripts directory.
    ///
    /// When the file is absent, nothing is mutated and the host reports
    /// exactly one error and spawns nothing. When it is present, the run
    /// proceeds: the name becomes both the selected name and the tracked
    /// session's name, and the host spawns exactly one execution thread,
    /// replacing its stored handle.
    pub fn run(&mut self, name: &String, file_exists: bool) -> (r: RunOutcome)
        ensures
            r is Started <==> file_exists,
            !file_exists ==> final(self)@ == old(self)@,
            file_exists ==> final(self)@.selected == name@ && final(self)@.session == Some(name@),
    {
        if !file_exists {
            return RunOutcome::NotFound;
        }
        self.selected = name.clone();
        self.session = Some(name.clone());
        RunOutcome::Started
    }

    /// The full stop-then-run decision, over the facts the host gathered in
    /// order: the liveness probe of the tracked thread, the user's answer
    /// to the stop prompt (gathered only when a script was running), the
    /// outcome of the forced-termination attempt (made only on a confirmed
    /// stop), and whether the named file is present.
    ///
    /// A declined prompt or a failed termination aborts the whole request
    /// with no mutation; otherwise the request continues as a plain run.
    pub fn request_stop_then_run(
        &mut self,
        name: &String,
        probe: ProbeResult,
        confirmed: bool,
        terminate_ok: bool,
        file_exists: bool,
    ) -> (r: StopRunOutcome)
        ensures
            ({
                let running = old(self)@.session is Some && probe is Alive;
                let gate = !running || (confirmed && terminate_ok);
                &&& (r is Declined <==> running && !confirmed)
                &&& (r is TerminateFailed <==> running && confirmed && !terminate_ok)
                &&& (r is NotFound <==> gate && !file_exists)
                &&& (r is Started <==> gate && file_exists)
                &&& (!(r is Started) ==> final(self)@ == old(self)@)
                &&& (r is Started ==> final(self)@.selected == name@ && final(self)@.session
                    == Some(name@))
            }),
    {
        if self.is_running(probe) {
            if !confirmed {
                return StopRunOutcome::Declined;
            }
            if !terminate_ok {
                return StopRunOutcome::TerminateFailed;
            }
        }
        match self.run(name, file_exists) {
            RunOutcome::NotFound => StopRunOutcome::NotFound,
            RunOutcome::Started => StopRunOutcome::Started,
        }
    }

    /// Re-run the selected script: a no-op when no script has ever been
    /// selected, otherwise a plain run of the selected name.
    pub fn reload(&mut self, file_exists: bool) -> (r: ReloadOutcome)
        ensures
            r is NoSelection <==> old(self)@.selected.len() == 0,
            r is NotFound <==> old(self)@.selected.len() > 0 && !file_exists,
            r is Started <==> old(self)@.selected.len() > 0 && file_exists,
            !(r is Started) ==> final(self)@ == old(self)@,
            r is Started ==> final(self)@.selected == old(self)@.selected && final(self)@.session
                == Some(old(self)@.selected),
    {
        if self.selected.as_str().is_empty() {
            return ReloadOutcome::NoSelection;
        }
        let name = self.selected.clone();
        match self.run(&name, file_exists) {
            RunOutcome::NotFound => ReloadOutcome::NotFound,
            RunOutcome::Started => ReloadOutcome::Started,
        }
    }

    /// The script the edit command applies to: the selected name, or
    /// nothing — reported as an error by the host — when no script has
    /// ever been selected.
    pub fn edit_target(&self) -> (r: Option<String>)
        ensures
            r is Some <==> self@.selected.len() > 0,
            r matches Some(n) ==> n@ == self@.selected,
    {
        if self.selected.as_str().is_empty() {
            None
        } else {
            Some(self.selected.clone())
        }
    }
}

} // verus!
