use exercise_tutor::{Exercise, ExerciseManager};

fn catalog(records: &[(&str, bool)]) -> ExerciseManager {
    let mut m = ExerciseManager::default();
    for (name, complete) in records {
        let module = format!("exercises::{}", name);
        m.add_exercise(name, name, &module, vec![format!("hint for {}", name)]);
        if *complete {
            let n = m.exercises.len();
            m.exercises[n - 1].is_complete = true;
        }
    }
    m.set_to_first_incomplete();
    m
}

#[test]
fn built_in_catalog_has_four_exercises() {
    let m = ExerciseManager::new();
    assert_eq!(m.get_exercises().len(), 4);
    assert_eq!(m.current_index, 0);
    assert_eq!(m.get_exercises()[0].name, "two_sum/two_sum_v1");
    assert_eq!(m.get_exercises()[1].name, "two_sum/warehouse_weight");
    assert_eq!(m.get_exercises()[2].name, "two_sum/construction_bars");
    assert_eq!(m.get_exercises()[3].name, "two_sum/recipe_ingredients");
    assert_eq!(
        m.get_exercise_hints("two_sum/two_sum_v1").map(|h| h.len()),
        Some(2)
    );
    assert!(m.get_exercise_hints("no_such_exercise").is_none());
}

#[test]
fn first_incomplete_is_lowest_index_or_none() {
    let mut m = catalog(&[("a", true), ("b", true), ("c", false), ("d", false)]);
    m.set_to_first_incomplete();
    assert_eq!(m.current_index, 2);
    assert!(!m.all_completed());

    // All complete: no incomplete index exists, the cursor defaults to 0.
    let mut all = catalog(&[("a", true), ("b", true)]);
    all.set_to_first_incomplete();
    assert_eq!(all.current_index, 0);
    assert!(all.all_completed());
}

#[test]
fn count_and_all_completed_agree() {
    let m = catalog(&[("a", true), ("b", false), ("c", true)]);
    assert_eq!(m.count_completed(), 2);
    assert!(!m.all_completed());
    let empty = ExerciseManager::default();
    assert_eq!(empty.count_completed(), 0);
    assert!(empty.all_completed());
}

#[test]
fn refresh_reads_sentinel_marker() {
    let mut e = Exercise::new("a", "A", "exercises::a");
    assert!(!e.is_complete);

    e.refresh_status(Some(&String::from("fn solved() {}")));
    assert!(e.is_complete);

    e.refresh_status(Some(&String::from("// I AM NOT DONE\nfn x() {}")));
    assert!(!e.is_complete);
}

#[test]
fn refresh_of_unreadable_file_keeps_prior_status() {
    let mut e = Exercise::new("a", "A", "exercises::a");
    e.refresh_status(Some(&String::from("done")));
    assert!(e.is_complete);
    // The unreadable-file case: the prior value survives.
    e.refresh_status(None);
    assert!(e.is_complete);
}

#[test]
fn refresh_all_statuses_applies_contents_in_order() {
    let mut m = catalog(&[("a", false), ("b", true), ("c", false)]);
    let contents = vec![
        Some(String::from("clean")),
        Some(String::from("I AM NOT DONE")),
        None,
    ];
    m.refresh_all_statuses(&contents);
    assert!(m.exercises[0].is_complete);
    assert!(!m.exercises[1].is_complete);
    assert!(!m.exercises[2].is_complete);
}

#[test]
fn move_to_next_stops_at_last_exercise() {
    let mut m = catalog(&[("a", false), ("b", false)]);
    assert!(m.move_to_next_exercise());
    assert_eq!(m.current_index, 1);
    assert!(!m.move_to_next_exercise());
    assert_eq!(m.current_index, 1);
}

#[test]
fn status_marker_reflects_completion() {
    let mut e = Exercise::new("a", "A", "exercises::a");
    assert_eq!(e.status_marker(), "X");
    e.is_complete = true;
    assert_eq!(e.status_marker(), "O");
}

#[test]
fn source_path_derives_from_module_path() {
    let e = Exercise::new("a", "A", "exercises::two_sum::two_sum_v1");
    assert_eq!(e.source_path(), "src/exercises/two_sum/two_sum_v1.rs");
}

#[test]
fn current_exercise_follows_cursor() {
    let mut m = catalog(&[("a", true), ("b", false)]);
    m.set_to_first_incomplete();
    assert_eq!(m.get_current_exercise().map(|e| e.name.as_str()), Some("b"));
    assert_eq!(
        m.get_current_hints().map(|h| h[0].as_str()),
        Some("hint for b")
    );

    let mut empty = ExerciseManager::default();
    assert!(empty.get_current_exercise().is_none());
    assert!(empty.get_current_exercise_mut().is_none());
    assert!(empty.get_current_hints().is_none());
}

#[test]
fn adding_under_same_name_replaces_hints() {
    let mut m = ExerciseManager::default();
    m.add_exercise("a", "A", "exercises::a", vec![String::from("first")]);
    m.add_exercise("a", "A again", "exercises::a2", vec![String::from("second")]);
    // The catalog keeps both records; the hint store keeps one entry per key.
    assert_eq!(m.get_exercises().len(), 2);
    assert_eq!(m.get_exercise_hints("a").map(|h| h[0].as_str()), Some("second"));
}
