use exercise_tutor::change_signal::ChangeSignal;
use exercise_tutor::session::{
    AdvanceOutcome, Command, ExitPoll, ExitReport, HintDisplay, RunState, SessionController,
    StartAction, parse_command,
};
use exercise_tutor::text::{concat_chunks, str_contains};
use exercise_tutor::ExerciseManager;

fn catalog(records: &[(&str, bool)]) -> ExerciseManager {
    let mut m = ExerciseManager::default();
    for (name, complete) in records {
        let module = format!("exercises::{}", name);
        m.add_exercise(name, name, &module, vec![format!("hint for {}", name)]);
        if *complete {
            let n = m.exercises.len();
            m.exercises[n - 1].is_complete = true;
        }
    }
    m.set_to_first_incomplete();
    m
}

fn session(records: &[(&str, bool)]) -> SessionController {
    SessionController::new(catalog(records))
}

#[test]
fn start_run_spawns_for_incomplete_current() {
    let mut c = session(&[("a", false)]);
    match c.start_run() {
        StartAction::SpawnTest(filter) => assert_eq!(filter, "exercises::a"),
        StartAction::NoSpawn => panic!("expected a spawn"),
    }
    assert_eq!(c.run, RunState::Running);
    assert!(c.output_attached);
    assert!(!c.hint_shown);
}

#[test]
fn start_run_skips_completed_current() {
    let mut c = session(&[("a", true)]);
    assert!(matches!(c.start_run(), StartAction::NoSpawn));
    assert_eq!(c.run, RunState::Idle);
    assert!(!c.output_attached);
}

#[test]
fn start_then_kill_rests_idle_with_channel_discarded() {
    // Whether or not the process exited in between, teardown lands in
    // Idle and the output channel is gone.
    let mut c = session(&[("a", false)]);
    c.start_run();
    assert_eq!(c.run, RunState::Running);
    assert!(c.kill_run());
    assert_eq!(c.run, RunState::Idle);
    assert!(!c.output_attached);
    // Idempotent: a second teardown has no process to reap.
    assert!(!c.kill_run());
    assert_eq!(c.run, RunState::Idle);
}

#[test]
fn successful_exit_marks_current_complete_in_memory() {
    let mut c = session(&[("a", false)]);
    c.start_run();
    let report = c.poll_exit(ExitPoll::Finished(true));
    assert!(matches!(report, ExitReport::TestsPassed));
    assert_eq!(c.run, RunState::Succeeded);
    assert!(!c.output_attached);
    assert!(c.manager.exercises[0].is_complete);
}

#[test]
fn failed_exit_leaves_completion_untouched_and_suggests_hint() {
    let mut c = session(&[("a", false)]);
    c.start_run();
    match c.poll_exit(ExitPoll::Finished(false)) {
        ExitReport::TestsFailed { suggest_hint } => assert!(suggest_hint),
        _ => panic!("expected a failure report"),
    }
    assert_eq!(c.run, RunState::Failed);
    assert!(!c.manager.exercises[0].is_complete);

    // After a hint was shown, a later failed run does not nag again.
    let mut d = session(&[("a", false)]);
    d.start_run();
    d.show_hint();
    match d.poll_exit(ExitPoll::Finished(false)) {
        ExitReport::TestsFailed { suggest_hint } => assert!(!suggest_hint),
        _ => panic!("expected a failure report"),
    }
}

#[test]
fn wait_error_counts_as_failed_run() {
    let mut c = session(&[("a", false)]);
    c.start_run();
    assert!(matches!(c.poll_exit(ExitPoll::WaitError), ExitReport::WaitFailed));
    assert_eq!(c.run, RunState::Failed);
    assert!(!c.output_attached);
}

#[test]
fn exit_poll_without_running_process_changes_nothing() {
    let mut c = session(&[("a", false)]);
    assert!(matches!(c.poll_exit(ExitPoll::Finished(true)), ExitReport::NoChange));
    assert_eq!(c.run, RunState::Idle);
    assert!(!c.manager.exercises[0].is_complete);

    c.start_run();
    assert!(matches!(c.poll_exit(ExitPoll::StillRunning), ExitReport::NoChange));
    assert_eq!(c.run, RunState::Running);
}

#[test]
fn spawn_failure_fails_run_and_session_continues() {
    let mut c = session(&[("a", false)]);
    c.start_run();
    c.spawn_failed();
    assert_eq!(c.run, RunState::Failed);
    assert!(!c.output_attached);
}

#[test]
fn success_then_rescan_with_marker_reverts() {
    // The run's success forces the flag in memory only; a rescan that
    // still finds the sentinel marker reverts it.
    let mut c = session(&[("a", false)]);
    c.start_run();
    c.poll_exit(ExitPoll::Finished(true));
    assert!(c.manager.exercises[0].is_complete);
    c.manager
        .refresh_all_statuses(&vec![Some(String::from("// I AM NOT DONE"))]);
    assert!(!c.manager.exercises[0].is_complete);
}

#[test]
fn advance_is_blocked_while_current_incomplete() {
    let mut c = session(&[("a", false), ("b", false)]);
    assert!(matches!(c.advance(), AdvanceOutcome::Blocked));
    assert_eq!(c.manager.current_index, 0);
}

#[test]
fn advance_never_moves_past_last_exercise() {
    let mut c = session(&[("a", true), ("b", true)]);
    assert!(matches!(c.advance(), AdvanceOutcome::Advanced { .. }));
    assert_eq!(c.manager.current_index, 1);
    assert!(matches!(c.advance(), AdvanceOutcome::AtEnd { .. }));
    assert_eq!(c.manager.current_index, 1);
    assert!(matches!(c.advance(), AdvanceOutcome::AtEnd { .. }));
    assert_eq!(c.manager.current_index, 1);

    let mut empty = SessionController::new(ExerciseManager::default());
    assert!(matches!(
        empty.advance(),
        AdvanceOutcome::AtEnd { kill_previous: false }
    ));
}

#[test]
fn pass_then_advance_then_blocked_on_next() {
    // Catalog [A(incomplete), B(incomplete)], cursor 0: running A's test
    // to exit zero completes A, one advance reaches B, the next is
    // blocked because B is incomplete.
    let mut c = session(&[("a", false), ("b", false)]);
    assert_eq!(c.manager.current_index, 0);
    c.start_run();
    c.poll_exit(ExitPoll::Finished(true));
    assert!(c.manager.exercises[0].is_complete);
    assert!(matches!(c.advance(), AdvanceOutcome::Advanced { .. }));
    assert_eq!(c.manager.current_index, 1);
    assert!(matches!(c.advance(), AdvanceOutcome::Blocked));
    assert_eq!(c.manager.current_index, 1);
}

#[test]
fn check_all_lands_on_first_failure() {
    // [A(pass), B(fail), C(pass)]: the cursor lands on B.
    let mut c = session(&[("a", false), ("b", false), ("c", false)]);
    let clean = || Some(String::from("clean"));
    c.check_all(&vec![true, false, true], &vec![clean(), clean(), clean()]);
    assert!(c.manager.exercises[0].is_complete);
    assert!(!c.manager.exercises[1].is_complete);
    assert!(c.manager.exercises[2].is_complete);
    assert_eq!(c.manager.current_index, 1);
}

#[test]
fn check_all_lands_on_last_when_all_pass() {
    let mut c = session(&[("a", false), ("b", false), ("c", false)]);
    let clean = || Some(String::from("clean"));
    c.check_all(&vec![true, true, true], &vec![clean(), clean(), clean()]);
    assert!(c.manager.exercises.iter().all(|e| e.is_complete));
    assert_eq!(c.manager.current_index, 2);
}

#[test]
fn check_all_requires_marker_absence_besides_passing() {
    // Tests pass but the sentinel marker is still in the file: the
    // combined check fails.
    let mut c = session(&[("a", false)]);
    c.check_all(
        &vec![true],
        &vec![Some(String::from("// I AM NOT DONE"))],
    );
    assert!(!c.manager.exercises[0].is_complete);
    assert_eq!(c.manager.current_index, 0);
}

#[test]
fn change_signal_fires_once_per_event() {
    // One write batch: poll answers true exactly once, then false again
    // until another write is recorded.
    let mut s = ChangeSignal::new();
    assert!(!s.poll());
    s.record_event();
    assert!(s.poll());
    assert!(!s.poll());
    assert!(!s.poll());
    s.record_event();
    assert!(s.poll());
    assert!(!s.poll());
}

#[test]
fn file_change_restarts_run() {
    let mut c = session(&[("a", false)]);
    c.setup_current_exercise();
    c.watch_result(true);
    c.start_run();
    assert_eq!(c.run, RunState::Running);

    c.record_file_event();
    let report = c.check_file_changes();
    assert!(report.kill_previous);
    assert!(matches!(report.action, StartAction::SpawnTest(_)));
    assert_eq!(c.run, RunState::Running);

    // No further pending event: nothing to do.
    let quiet = c.check_file_changes();
    assert!(!quiet.kill_previous);
    assert!(matches!(quiet.action, StartAction::NoSpawn));
}

#[test]
fn dead_watch_degrades_to_no_changes() {
    let mut c = session(&[("a", false)]);
    c.setup_current_exercise();
    c.watch_result(false);
    c.record_file_event();
    let report = c.check_file_changes();
    assert!(!report.kill_previous);
    assert!(matches!(report.action, StartAction::NoSpawn));
    assert_eq!(c.run, RunState::Idle);
}

#[test]
fn setup_plans_watch_only_for_incomplete_current() {
    let mut c = session(&[("a", false)]);
    c.start_run();
    let plan = c.setup_current_exercise();
    assert!(plan.kill_previous);
    assert_eq!(plan.watch_path.as_deref(), Some("src/exercises/a.rs"));
    assert_eq!(c.run, RunState::Idle);
    assert!(!c.watch_active);

    let mut done = session(&[("a", true)]);
    let plan = done.setup_current_exercise();
    assert!(!plan.kill_previous);
    assert!(plan.watch_path.is_none());
}

#[test]
fn show_hint_reports_first_hint_and_marks_shown() {
    let mut c = session(&[("a", false)]);
    assert!(!c.hint_shown);
    match c.show_hint() {
        HintDisplay::Hint(h) => assert_eq!(h, "hint for a"),
        _ => panic!("expected a hint"),
    }
    assert!(c.hint_shown);

    let mut done = session(&[("a", true)]);
    assert!(matches!(done.show_hint(), HintDisplay::AlreadyComplete));

    let mut none = SessionController::new(ExerciseManager::default());
    assert!(matches!(none.show_hint(), HintDisplay::NoExercise));

    let mut bare = ExerciseManager::default();
    bare.add_exercise("a", "A", "exercises::a", vec![]);
    let mut no_hints = SessionController::new(bare);
    assert!(matches!(no_hints.show_hint(), HintDisplay::NoHints));
}

#[test]
fn command_tokens_parse_to_their_actions() {
    assert_eq!(parse_command("l"), Command::ListExercises);
    assert_eq!(parse_command("h"), Command::Hint);
    assert_eq!(parse_command("n"), Command::NextExercise);
    assert_eq!(parse_command("c"), Command::CheckAll);
    assert_eq!(parse_command("q"), Command::Quit);
    // The invalid-command case: recovered by re-prompting.
    assert_eq!(parse_command("x"), Command::Unknown);
    assert_eq!(parse_command(""), Command::Unknown);
    assert_eq!(parse_command("quit"), Command::Unknown);
}

#[test]
fn output_chunks_concatenate_in_arrival_order() {
    let chunks = vec![
        String::from("running 1 test\n"),
        String::from("test ok"),
        String::from(""),
        String::from("\ndone"),
    ];
    assert_eq!(concat_chunks(&chunks), "running 1 test\ntest ok\ndone");
    assert_eq!(concat_chunks(&Vec::new()), "");
}

#[test]
fn marker_search_finds_substrings() {
    assert!(str_contains("// I AM NOT DONE\nfn x() {}", "I AM NOT DONE"));
    assert!(!str_contains("// I AM DONE", "I AM NOT DONE"));
    assert!(str_contains("abc", ""));
    assert!(!str_contains("ab", "abc"));
}
