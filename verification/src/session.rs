//! The session controller: the state machine that supervises at most one
//! running external test process for the active exercise.
//!
//! The controller owns the exercise catalog, the cursor, the lifecycle of
//! the current test run and the change signal of the watched file.  It makes
//! every decision — when a run starts, how an exit code is reconciled with
//! the completion flag, where the cursor moves — while the embedding program
//! performs the outside work those decisions call for: spawning and killing
//! the runner process, creating file watchers, reading files, and rendering.
//! Each decision function returns a plain description of the work to do and
//! takes the outcome back as a plain value, so the whole state machine is
//! verified for every outcome the outside world can produce.

use vstd::prelude::*;
use vstd::std_specs::vec::vec_index_mut;

use crate::change_signal::{ChangeSignal, signal_poll_result, signal_polled, signal_recorded};
use crate::exercise_manager::{
    Exercise, ExerciseManager, first_incomplete_index, lemma_first_incomplete_index_correct,
    hints_lookup,
};
use crate::text::{marks_incomplete, source_path_spec, str_eq};

verus! {

/// The lifecycle of the zero-or-one external test process.  The process
/// handle itself lives with the embedding program; the controller tracks
/// the state and never allows two concurrent runs.
#[derive(Clone, Copy, PartialEq, Eq, Structural, Debug)]
pub enum RunState {
    /// No run in flight and none concluded since the last reset.
    Idle,
    /// A test process has been spawned and has not been reaped.
    Running,
    /// The last run exited with status zero.
    Succeeded,
    /// The last run exited non-zero, could not be spawned, or could not be
    /// awaited.
    Failed,
}

/// What the controller asks the embedding program to do about a run.
pub enum StartAction {
    /// Spawn the external test runner with this filter argument.
    SpawnTest(String),
    /// Nothing to spawn: there is no current exercise, or it is complete.
    NoSpawn,
}

/// What the embedding program saw when it checked the running process.
pub enum ExitPoll {
    /// The process has not exited yet.
    StillRunning,
    /// The process exited; the payload is whether its status was zero.
    Finished(bool),
    /// Waiting for the process failed at the OS level.
    WaitError,
}

/// How the controller reconciled an exit check.
pub enum ExitReport {
    /// Nothing changed: no process was running, or it still runs.
    NoChange,
    /// The run succeeded; the current exercise is now complete in memory.
    TestsPassed,
    /// The run failed; `suggest_hint` asks the interface to point at the
    /// hint command when no hint was shown this run.
    TestsFailed {
        suggest_hint: bool,
    },
    /// The wait itself failed; the run counts as failed and the session
    /// continues.
    WaitFailed,
}

/// The outcome of asking to advance to the next exercise.
pub enum AdvanceOutcome {
    /// The current exercise is not complete yet; nothing changed.
    Blocked,
    /// The cursor moved forward; `kill_previous` tells the embedding
    /// program whether a process must be reaped.
    Advanced {
        kill_previous: bool,
    },
    /// The cursor was already on the last exercise, or the catalog is
    /// empty; `kill_previous` as above.
    AtEnd {
        kill_previous: bool,
    },
}

/// What the embedding program must do after the controller prepared the
/// current exercise.
pub struct SetupPlan {
    /// A previously running process must be reaped.
    pub kill_previous: bool,
    /// Watch this path and then start a run, or watch nothing because the
    /// current exercise is complete or missing.
    pub watch_path: Option<String>,
}

/// What the controller asks for when a file change fires.
pub struct RestartReport {
    /// A previously running process must be reaped first.
    pub kill_previous: bool,
    /// The run to start afterwards.
    pub action: StartAction,
}

/// What the interface should show for the hint command.
pub enum HintDisplay {
    /// No current exercise exists.
    NoExercise,
    /// The current exercise is already complete.
    AlreadyComplete,
    /// A hint list exists but is empty.
    NoHints,
    /// No hint list is stored for the current exercise.
    MissingHints,
    /// The first hint of the current exercise.
    Hint(String),
}

/// A parsed user command token.
#[derive(Clone, Copy, PartialEq, Eq, Structural, Debug)]
pub enum Command {
    /// `l`: list the catalog.
    ListExercises,
    /// `h`: show a hint.
    Hint,
    /// `n`: advance to the next exercise.
    NextExercise,
    /// `c`: re-check every exercise.
    CheckAll,
    /// `q`: quit the session.
    Quit,
    /// Anything else.
    Unknown,
}

/// Which command a token names.
pub open spec fn spec_parse_command(line: Seq<char>) -> Command {
    if line == "q"@ {
        Command::Quit
    } else if line == "l"@ {
        Command::ListExercises
    } else if line == "h"@ {
        Command::Hint
    } else if line == "n"@ {
        Command::NextExercise
    } else if line == "c"@ {
        Command::CheckAll
    } else {
        Command::Unknown
    }
}

/// Parse one already-trimmed command token; unrecognized tokens map to
/// [`Command::Unknown`], the recoverable invalid-command case.
pub fn parse_command(line: &str) -> (cmd: Command)
    ensures
        cmd == spec_parse_command(line@),
{
    if str_eq(line, "q") {
        Command::Quit
    } else if str_eq(line, "l") {
        Command::ListExercises
    } else if str_eq(line, "h") {
        Command::Hint
    } else if str_eq(line, "n") {
        Command::NextExercise
    } else if str_eq(line, "c") {
        Command::CheckAll
    } else {
        Command::Unknown
    }
}

/// The registry has a current record and it still needs work.
pub open spec fn current_needs_run(m: ExerciseManager) -> bool {
    (m.current_index as int) < m.exercises@.len() && !m.exercises@[m.current_index as int].is_complete
}

/// The session controller.
pub struct SessionController {
    /// The catalog, cursor and hints.
    pub manager: ExerciseManager,
    /// The lifecycle state of the zero-or-one test process.
    pub run: RunState,
    /// Whether a hint was already shown for the current run.
    pub hint_shown: bool,
    /// Whether an output channel is attached to a running process.  The
    /// channel itself lives with the embedding program; this flag bounds
    /// its lifetime to the `Running` state.
    pub output_attached: bool,
    /// Whether a file watch is live for the current exercise.
    pub watch_active: bool,
    /// Pending change notifications of the watched file.
    pub signal: ChangeSignal,
}

/// Starting a run is allowed only while no process is running.
pub open spec fn start_run_enabled(c: SessionController) -> bool {
    !(c.run is Running)
}

/// The controller after a run was torn down: the run state rests at
/// `Idle` and the output channel is discarded, whatever else held before.
pub open spec fn killed(c: SessionController) -> SessionController {
    SessionController {
        manager: c.manager,
        run: RunState::Idle,
        hint_shown: c.hint_shown,
        output_attached: false,
        watch_active: c.watch_active,
        signal: c.signal,
    }
}

/// The controller after a run was started: when the current exercise
/// needs work, the run enters `Running` with a fresh output channel and a
/// cleared hint flag; otherwise starting is a no-op.
pub open spec fn started(c: SessionController) -> SessionController {
    if current_needs_run(c.manager) {
        SessionController {
            manager: c.manager,
            run: RunState::Running,
            hint_shown: false,
            output_attached: true,
            watch_active: c.watch_active,
            signal: c.signal,
        }
    } else {
        c
    }
}

impl SessionController {
    /// A valid controller: the cursor is clamped to the catalog and the
    /// output channel lives only while a process runs.
    pub open spec fn wf(&self) -> bool {
        &&& self.manager.wf()
        &&& self.output_attached ==> self.run is Running
    }

    /// Wrap a registry into an idle session.
    pub fn new(manager: ExerciseManager) -> (c: SessionController)
        requires
            manager.wf(),
        ensures
            c.manager == manager,
            c.run is Idle,
            !c.hint_shown,
            !c.output_attached,
            !c.watch_active,
            c.signal.pending == 0,
            c.wf(),
    {
        SessionController {
            manager,
            run: RunState::Idle,
            hint_shown: false,
            output_attached: false,
            watch_active: false,
            signal: ChangeSignal::new(),
        }
    }

    /// Start a test run for the current exercise.  Requires that no
    /// process is running: a previous run must have been torn down first.
    /// Running tests for a completed or missing exercise is a no-op, not
    /// an error.  On a real start the hint flag resets and a fresh output
    /// channel is attached; any previously buffered output is discarded
    /// with the old channel.
    pub fn start_run(&mut self) -> (action: StartAction)
        requires
            old(self).wf(),
            start_run_enabled(*old(self)),
        ensures
            *final(self) == started(*old(self)),
            current_needs_run(old(self).manager) ==> (action matches StartAction::SpawnTest(f)
                && f@ == old(self).manager.exercises@[old(self).manager.current_index as int].module_name@),
            !current_needs_run(old(self).manager) ==> action is NoSpawn,
            final(self).wf(),
    {
        let mut filter: Option<String> = Option::None;
        match self.manager.get_current_exercise() {
            Option::Some(e) => {
                if !e.is_complete {
                    filter = Option::Some(e.module_name.clone());
                }
            },
            Option::None => {},
        }
        match filter {
            Option::Some(f) => {
                self.run = RunState::Running;
                self.hint_shown = false;
                self.output_attached = true;
                StartAction::SpawnTest(f)
            },
            Option::None => StartAction::NoSpawn,
        }
    }

    /// The runner could not be spawned: the run counts as failed, the
    /// output channel is discarded, and the session continues.
    pub fn spawn_failed(&mut self)
        ensures
            final(self).run is Failed,
            !final(self).output_attached,
            final(self).manager == old(self).manager,
            final(self).hint_shown == old(self).hint_shown,
            final(self).watch_active == old(self).watch_active,
            final(self).signal == old(self).signal,
            old(self).manager.wf() ==> final(self).wf(),
    {
        self.run = RunState::Failed;
        self.output_attached = false;
    }

    /// Tear down the current run.  Idempotent: whatever state the run was
    /// in — and whether or not the process had already exited — the run
    /// state rests at `Idle` and the output channel is discarded.  The
    /// returned flag tells the embedding program whether a process exists
    /// that must be terminated and awaited.
    pub fn kill_run(&mut self) -> (was_running: bool)
        ensures
            was_running == (old(self).run is Running),
            *final(self) == killed(*old(self)),
            final(self).run is Idle,
            !final(self).output_attached,
            old(self).manager.wf() ==> final(self).wf(),
    {
        let was_running = matches!(self.run, RunState::Running);
        self.run = RunState::Idle;
        self.output_attached = false;
        was_running
    }

    /// Reconcile the state of the running process.  An exit with status
    /// zero concludes the run as `Succeeded` and forces the current
    /// exercise complete in memory — the backing file keeps its marker, so
    /// a later rescan may revert the flag.  A non-zero exit or a failed
    /// wait concludes the run as `Failed` and leaves the flag untouched.
    /// In every concluding case the output channel is discarded.  When no
    /// process is running, or it has not exited, nothing changes.
    pub fn poll_exit(&mut self, poll: ExitPoll) -> (report: ExitReport)
        requires
            old(self).wf(),
        ensures
            final(self).manager.current_index == old(self).manager.current_index,
            final(self).manager.hints == old(self).manager.hints,
            final(self).hint_shown == old(self).hint_shown,
            final(self).watch_active == old(self).watch_active,
            final(self).signal == old(self).signal,
            !(old(self).run is Running) ==> *final(self) == *old(self) && report is NoChange,
            old(self).run is Running ==> (match poll {
                ExitPoll::StillRunning => *final(self) == *old(self) && report is NoChange,
                ExitPoll::Finished(success) => if success {
                    ({
                        &&& final(self).run is Succeeded
                        &&& !final(self).output_attached
                        &&& report is TestsPassed
                        &&& current_needs_run(old(self).manager) ==> final(self).manager.exercises@
                            == old(self).manager.exercises@.update(
                            old(self).manager.current_index as int,
                            old(self).manager.exercises@[old(self).manager.current_index as int].marked_complete(),
                        )
                        &&& !current_needs_run(old(self).manager) ==> final(self).manager.exercises
                            == old(self).manager.exercises
                    })
                } else {
                    ({
                        &&& final(self).run is Failed
                        &&& !final(self).output_attached
                        &&& final(self).manager.exercises == old(self).manager.exercises
                        &&& (report matches ExitReport::TestsFailed { suggest_hint }
                            && suggest_hint == !old(self).hint_shown)
                    })
                },
                ExitPoll::WaitError => ({
                    &&& final(self).run is Failed
                    &&& !final(self).output_attached
                    &&& final(self).manager.exercises == old(self).manager.exercises
                    &&& report is WaitFailed
                }),
            }),
            final(self).wf(),
    {
        if !matches!(self.run, RunState::Running) {
            return ExitReport::NoChange;
        }
        match poll {
            ExitPoll::StillRunning => ExitReport::NoChange,
            ExitPoll::Finished(success) => {
                if success {
                    self.run = RunState::Succeeded;
                    self.output_attached = false;
                    let mut need_mark = false;
                    match self.manager.get_current_exercise() {
                        Option::Some(e) => {
                            if !e.is_complete {
                                need_mark = true;
                            }
                        },
                        Option::None => {},
                    }
                    if need_mark {
                        match self.manager.get_current_exercise_mut() {
                            Option::Some(e) => {
                                e.is_complete = true;
                            },
                            Option::None => {},
                        }
                        proof {
                            assert(self.manager.exercises@ =~= old(self).manager.exercises@.update(
                                old(self).manager.current_index as int,
                                old(self).manager.exercises@[old(self).manager.current_index as int].marked_complete(),
                            ));
                        }
                    }
                    ExitReport::TestsPassed
                } else {
                    self.run = RunState::Failed;
                    self.output_attached = false;
                    ExitReport::TestsFailed { suggest_hint: !self.hint_shown }
                }
            },
            ExitPoll::WaitError => {
                self.run = RunState::Failed;
                self.output_attached = false;
                ExitReport::WaitFailed
            },
        }
    }

    /// The output channel's far end is gone; stop tracking it.
    pub fn output_disconnected(&mut self)
        ensures
            !final(self).output_attached,
            final(self).manager == old(self).manager,
            final(self).run == old(self).run,
            final(self).hint_shown == old(self).hint_shown,
            final(self).watch_active == old(self).watch_active,
            final(self).signal == old(self).signal,
            old(self).manager.wf() ==> final(self).wf(),
    {
        self.output_attached = false;
    }

    /// Prepare the current exercise after the cursor moved or a re-check
    /// finished: tear down any run, clear the hint flag, drop the old
    /// watch, and — when the current exercise still needs work — ask the
    /// embedding program to watch its backing file and start a run.
    pub fn setup_current_exercise(&mut self) -> (plan: SetupPlan)
        requires
            old(self).wf(),
        ensures
            final(self).run is Idle,
            !final(self).output_attached,
            !final(self).hint_shown,
            !final(self).watch_active,
            final(self).manager == old(self).manager,
            plan.kill_previous == (old(self).run is Running),
            current_needs_run(old(self).manager) ==> (plan.watch_path matches Option::Some(p)
                && p@ == source_path_spec(
                old(self).manager.exercises@[old(self).manager.current_index as int].module_name@,
            )),
            !current_needs_run(old(self).manager) ==> plan.watch_path is None,
            final(self).wf(),
    {
        let kill_previous = self.kill_run();
        self.hint_shown = false;
        self.watch_active = false;
        let mut watch_path: Option<String> = Option::None;
        match self.manager.get_current_exercise() {
            Option::Some(e) => {
                if !e.is_complete {
                    watch_path = Option::Some(e.source_path());
                }
            },
            Option::None => {},
        }
        SetupPlan { kill_previous, watch_path }
    }

    /// Record whether the watch asked for by the last setup plan could be
    /// established.  A failed watch is the recoverable watch-unavailable
    /// case: automatic re-runs stay off and the session continues.  A
    /// fresh watch starts with an empty signal.
    pub fn watch_result(&mut self, ok: bool)
        ensures
            final(self).watch_active == ok,
            final(self).signal.pending == 0,
            final(self).manager == old(self).manager,
            final(self).run == old(self).run,
            final(self).hint_shown == old(self).hint_shown,
            final(self).output_attached == old(self).output_attached,
            old(self).wf() ==> final(self).wf(),
    {
        self.watch_active = ok;
        self.signal = ChangeSignal::new();
    }

    /// Record one change notification from the live watcher.
    pub fn record_file_event(&mut self)
        ensures
            final(self).signal == signal_recorded(old(self).signal),
            final(self).manager == old(self).manager,
            final(self).run == old(self).run,
            final(self).hint_shown == old(self).hint_shown,
            final(self).output_attached == old(self).output_attached,
            final(self).watch_active == old(self).watch_active,
            old(self).wf() ==> final(self).wf(),
    {
        self.signal.record_event();
    }

    /// Poll the change signal and, when a change fired, tear down the
    /// current run and start a fresh one for the current exercise.  With
    /// no live watch, or no pending change, nothing happens.
    pub fn check_file_changes(&mut self) -> (r: RestartReport)
        requires
            old(self).wf(),
        ensures
            final(self).manager == old(self).manager,
            final(self).watch_active == old(self).watch_active,
            final(self).signal == if old(self).watch_active {
                signal_polled(old(self).signal)
            } else {
                old(self).signal
            },
            !(old(self).watch_active && signal_poll_result(old(self).signal)) ==> {
                &&& final(self).run == old(self).run
                &&& final(self).output_attached == old(self).output_attached
                &&& final(self).hint_shown == old(self).hint_shown
                &&& !r.kill_previous
                &&& r.action is NoSpawn
            },
            old(self).watch_active && signal_poll_result(old(self).signal) ==> {
                &&& r.kill_previous == (old(self).run is Running)
                &&& current_needs_run(old(self).manager) ==> {
                    &&& final(self).run is Running
                    &&& !final(self).hint_shown
                    &&& final(self).output_attached
                    &&& (r.action matches StartAction::SpawnTest(f) && f@ == old(
                        self,
                    ).manager.exercises@[old(self).manager.current_index as int].module_name@)
                }
                &&& !current_needs_run(old(self).manager) ==> {
                    &&& final(self).run is Idle
                    &&& !final(self).output_attached
                    &&& final(self).hint_shown == old(self).hint_shown
                    &&& r.action is NoSpawn
                }
            },
            final(self).wf(),
    {
        if !self.watch_active {
            return RestartReport { kill_previous: false, action: StartAction::NoSpawn };
        }
        let changed = self.signal.poll();
        if !changed {
            return RestartReport { kill_previous: false, action: StartAction::NoSpawn };
        }
        let kill_previous = self.kill_run();
        let action = self.start_run();
        RestartReport { kill_previous, action }
    }

    /// Show the first hint for the current exercise and remember that a
    /// hint was shown for this run.
    pub fn show_hint(&mut self) -> (r: HintDisplay)
        ensures
            final(self).hint_shown,
            final(self).manager == old(self).manager,
            final(self).run == old(self).run,
            final(self).output_attached == old(self).output_attached,
            final(self).watch_active == old(self).watch_active,
            final(self).signal == old(self).signal,
            (old(self).manager.current_index as int) >= old(self).manager.exercises@.len() ==> r
                is NoExercise,
            (old(self).manager.current_index as int) < old(self).manager.exercises@.len() ==> {
                let e = old(self).manager.exercises@[old(self).manager.current_index as int];
                if e.is_complete {
                    r is AlreadyComplete
                } else {
                    match hints_lookup(old(self).manager.hints@, e.name@) {
                        Option::Some(i) => if old(self).manager.hints@[i].1@.len() == 0 {
                            r is NoHints
                        } else {
                            (r matches HintDisplay::Hint(h) && h == old(self).manager.hints@[i].1@[0])
                        },
                        Option::None => r is MissingHints,
                    }
                }
            },
            old(self).wf() ==> final(self).wf(),
    {
        let mut r = HintDisplay::NoExercise;
        match self.manager.get_current_exercise() {
            Option::Some(e) => {
                if e.is_complete {
                    r = HintDisplay::AlreadyComplete;
                } else {
                    match self.manager.get_exercise_hints(e.name.as_str()) {
                        Option::Some(hs) => {
                            if hs.len() == 0 {
                                r = HintDisplay::NoHints;
                            } else {
                                r = HintDisplay::Hint(hs[0].clone());
                            }
                        },
                        Option::None => {
                            r = HintDisplay::MissingHints;
                        },
                    }
                }
            },
            Option::None => {},
        }
        self.hint_shown = true;
        r
    }

    /// Advance to the next exercise.  Blocked — a no-op — while the
    /// current exercise is incomplete.  Otherwise the current run is torn
    /// down and the cursor moves forward by one, except on the last
    /// exercise, where it stays: the cursor never leaves the catalog.
    pub fn advance(&mut self) -> (r: AdvanceOutcome)
        requires
            old(self).wf(),
        ensures
            final(self).manager.exercises == old(self).manager.exercises,
            final(self).manager.hints == old(self).manager.hints,
            final(self).watch_active == old(self).watch_active,
            final(self).signal == old(self).signal,
            old(self).manager.exercises@.len() == 0 ==> *final(self) == *old(self) && (r
                matches AdvanceOutcome::AtEnd { kill_previous } && !kill_previous),
            current_needs_run(old(self).manager) ==> *final(self) == *old(self) && r is Blocked,
            old(self).manager.exercises@.len() > 0 && !current_needs_run(old(self).manager) ==> {
                let cur = old(self).manager.current_index as int;
                let len = old(self).manager.exercises@.len() as int;
                &&& final(self).run is Idle
                &&& !final(self).output_attached
                &&& final(self).hint_shown == old(self).hint_shown
                &&& cur + 1 < len ==> final(self).manager.current_index == cur + 1 && (r
                    matches AdvanceOutcome::Advanced { kill_previous } && kill_previous == (old(
                    self,
                ).run is Running))
                &&& cur + 1 >= len ==> final(self).manager.current_index as int == cur && (r
                    matches AdvanceOutcome::AtEnd { kill_previous } && kill_previous == (old(
                    self,
                ).run is Running))
            },
            final(self).manager.current_index as int <= (if old(self).manager.exercises@.len()
                == 0 {
                0int
            } else {
                old(self).manager.exercises@.len() - 1
            }),
            final(self).wf(),
    {
        let mut have_complete_current = false;
        match self.manager.get_current_exercise() {
            Option::Some(e) => {
                if e.is_complete {
                    have_complete_current = true;
                }
            },
            Option::None => {
                return AdvanceOutcome::AtEnd { kill_previous: false };
            },
        }
        if !have_complete_current {
            return AdvanceOutcome::Blocked;
        }
        let kill_previous = self.kill_run();
        if self.manager.move_to_next_exercise() {
            AdvanceOutcome::Advanced { kill_previous }
        } else {
            AdvanceOutcome::AtEnd { kill_previous }
        }
    }

    /// Reconcile a full re-check.  The embedding program has torn down any
    /// run, then run every exercise's tests to completion in catalog
    /// order; `passed` holds each exit-status-zero flag and `contents`
    /// each backing file's content.  Each completion flag becomes "tests
    /// passed AND marker absent"; an unreadable file falls back to the
    /// prior flag for the marker half.  The cursor lands on the first
    /// exercise failing the combined check, or on the last exercise when
    /// all pass.
    pub fn check_all(&mut self, passed: &Vec<bool>, contents: &Vec<Option<String>>)
        requires
            old(self).wf(),
            passed@.len() == old(self).manager.exercises@.len(),
            contents@.len() == old(self).manager.exercises@.len(),
        ensures
            final(self).manager.exercises@.len() == old(self).manager.exercises@.len(),
            forall|i: int| #![auto]
                0 <= i < old(self).manager.exercises@.len() ==> final(self).manager.exercises@[i]
                    == old(self).manager.exercises@[i].checked(
                    passed@[i],
                    contents.deep_view()[i],
                ),
            final(self).manager.current_index as int == (match first_incomplete_index(
                final(self).manager.exercises@,
            ) {
                Option::Some(i) => i,
                Option::None => if old(self).manager.exercises@.len() > 0 {
                    old(self).manager.exercises@.len() - 1
                } else {
                    0
                },
            }),
            final(self).manager.hints == old(self).manager.hints,
            final(self).run == old(self).run,
            final(self).hint_shown == old(self).hint_shown,
            final(self).output_attached == old(self).output_attached,
            final(self).watch_active == old(self).watch_active,
            final(self).signal == old(self).signal,
            final(self).wf(),
    {
        let ghost orig = self.manager.exercises@;
        let len = self.manager.exercises.len();
        let mut i: usize = 0;
        while i < len
            invariant
                len == orig.len(),
                passed@.len() == orig.len(),
                contents@.len() == orig.len(),
                self.manager.exercises@.len() == orig.len(),
                self.manager.current_index == old(self).manager.current_index,
                self.manager.hints == old(self).manager.hints,
                self.run == old(self).run,
                self.hint_shown == old(self).hint_shown,
                self.output_attached == old(self).output_attached,
                self.watch_active == old(self).watch_active,
                self.signal == old(self).signal,
                i <= len,
                forall|k: int| #![auto]
                    0 <= k < i ==> self.manager.exercises@[k] == orig[k].checked(
                        passed@[k],
                        contents.deep_view()[k],
                    ),
                forall|k: int| i <= k < orig.len() ==> self.manager.exercises@[k] == orig[k],
            decreases len - i,
        {
            let content = contents[i].as_ref();
            let test_passed = passed[i];
            let e = vec_index_mut(&mut self.manager.exercises, i);
            e.refresh_status(content);
            e.is_complete = test_passed && e.is_complete;
            i = i + 1;
        }

        let ghost scanned = self.manager.exercises;
        let mut j: usize = 0;
        while j < len
            invariant
                len == self.manager.exercises@.len(),
                self.manager.current_index == old(self).manager.current_index,
                self.manager.hints == old(self).manager.hints,
                self.manager.exercises == scanned,
                forall|k: int| #![auto]
                    0 <= k < orig.len() ==> self.manager.exercises@[k] == orig[k].checked(
                        passed@[k],
                        contents.deep_view()[k],
                    ),
                self.run == old(self).run,
                self.hint_shown == old(self).hint_shown,
                self.output_attached == old(self).output_attached,
                self.watch_active == old(self).watch_active,
                self.signal == old(self).signal,
                j <= len,
                forall|k: int| 0 <= k < j ==> self.manager.exercises@[k].is_complete,
            decreases len - j,
        {
            if !self.manager.exercises[j].is_complete {
                proof {
                    lemma_first_incomplete_index_correct(self.manager.exercises@);
                    match first_incomplete_index(self.manager.exercises@) {
                        Option::Some(i0) => {
                            assert(i0 == j as int);
                        },
                        Option::None => {
                            assert(false);
                        },
                    }
                }
                self.manager.current_index = j;
                return ;
            }
            j = j + 1;
        }
        proof {
            lemma_first_incomplete_index_correct(self.manager.exercises@);
            match first_incomplete_index(self.manager.exercises@) {
                Option::Some(i0) => {
                    assert(false);
                },
                Option::None => {},
            }
        }
        if len > 0 {
            self.manager.current_index = len - 1;
        } else {
            self.manager.current_index = 0;
        }
    }
}

/// Starting a run and immediately tearing it down leaves the run state in
/// `Idle` with the output channel discarded — whether or not the process
/// had already exited, since teardown never consults the exit state — and
/// the registry untouched.
pub proof fn lemma_start_then_kill_idle(c: SessionController)
    requires
        start_run_enabled(c),
    ensures
        killed(started(c)).run is Idle,
        !killed(started(c)).output_attached,
        killed(started(c)).manager == c.manager,
{
}

/// At most one run exists at any time: while a process is running,
/// starting another is disabled, and teardown — the only way onward —
/// rests the state at `Idle`, from which starting becomes enabled again.
/// A `Running` state is therefore never entered from another `Running`
/// state without an intervening `Idle`.
pub proof fn lemma_at_most_one_running(c: SessionController)
    requires
        c.run is Running,
    ensures
        !start_run_enabled(c),
        killed(c).run is Idle,
        start_run_enabled(killed(c)),
{
}

/// A successful run forces the completion flag only in memory: a later
/// rescan of a backing file that still carries the sentinel marker
/// reverts the flag to incomplete.  This reconciliation gap is intended.
pub proof fn lemma_success_then_rescan_reverts(e: Exercise, content: Seq<char>)
    requires
        marks_incomplete(content),
    ensures
        e.marked_complete().is_complete,
        !e.marked_complete().rescanned(Option::Some(content)).is_complete,
{
}

} // verus!
