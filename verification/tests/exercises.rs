use exercise_tutor::exercises::construction_bars::find_bar_pair;
use exercise_tutor::exercises::merge_strings_alternatively::merge_alternately;
use exercise_tutor::exercises::recipe_ingredients::find_ingredient_pair;
use exercise_tutor::exercises::two_sum_v1::two_sum;
use exercise_tutor::exercises::warehouse_weight::find_box_pair;

#[test]
fn test_equal_length() {
    let word1 = String::from("abc");
    let word2 = String::from("pqr");
    assert_eq!(merge_alternately(word1, word2), "apbqcr");
}

#[test]
fn test_word1_longer() {
    let word1 = String::from("abcd");
    let word2 = String::from("pq");
    assert_eq!(merge_alternately(word1, word2), "apbqcd");
}

#[test]
fn test_word2_longer() {
    let word1 = String::from("ab");
    let word2 = String::from("pqrs");
    assert_eq!(merge_alternately(word1, word2), "apbqrs");
}

#[test]
fn test_empty_word1() {
    let word1 = String::from("");
    let word2 = String::from("pqr");
    assert_eq!(merge_alternately(word1, word2), "pqr");
}

#[test]
fn test_empty_word2() {
    let word1 = String::from("abc");
    let word2 = String::from("");
    assert_eq!(merge_alternately(word1, word2), "abc");
}

#[test]
fn test_both_empty() {
    let word1 = String::from("");
    let word2 = String::from("");
    assert_eq!(merge_alternately(word1, word2), "");
}

#[test]
fn two_sum_v1_test_case_1() {
    let nums = vec![2, 7, 11, 15];
    let target = 9;
    assert_eq!(two_sum(nums, target), vec![0, 1]);
}

#[test]
fn two_sum_v1_test_case_2() {
    let nums = vec![3, 2, 4];
    let target = 6;
    assert_eq!(two_sum(nums, target), vec![1, 2]);
}

#[test]
fn two_sum_v1_test_case_3() {
    let nums = vec![3, 3];
    let target = 6;
    assert_eq!(two_sum(nums, target), vec![0, 1]);
}

#[test]
fn construction_bars_test_case_1() {
    let bar_lengths = vec![120, 235, 80, 185, 150];
    let target_length = 270;
    let result = find_bar_pair(bar_lengths, target_length);
    assert_eq!(result.len(), 2);
    assert!(result.contains(&0) && result.contains(&4));
}

#[test]
fn recipe_ingredients_test_case_1() {
    let calories = vec![150, 275, 110, 185, 225];
    let target_calories = 375;
    let result = find_ingredient_pair(calories, target_calories);
    assert_eq!(result.len(), 2);
    assert!(result.contains(&0) && result.contains(&4));
}

#[test]
fn recipe_ingredients_test_case_3() {
    let calories = vec![50, 100, 150, 200, 250];
    let target_calories = 350;
    let result = find_ingredient_pair(calories, target_calories);
    assert_eq!(result.len(), 2);
    assert!(result.contains(&1) && result.contains(&4));
}

#[test]
fn warehouse_weight_test_case_1() {
    let box_weights = vec![150, 210, 80, 375, 160];
    let target_weight = 370;
    let result = find_box_pair(box_weights, target_weight);
    assert_eq!(result.len(), 2);
    assert!(result.contains(&1) && result.contains(&4));
}

#[test]
fn pair_finders_report_no_pair_with_empty_result() {
    assert_eq!(find_bar_pair(vec![1, 2, 3], 100), Vec::<i32>::new());
    assert_eq!(find_ingredient_pair(vec![], 10), Vec::<i32>::new());
    assert_eq!(find_box_pair(vec![5], 10), Vec::<i32>::new());
    assert_eq!(two_sum(vec![1, 2, 3], 100), Vec::<i32>::new());
}

#[test]
fn two_sum_prefers_latest_first_index_for_earliest_second() {
    // Two earlier occurrences of the complement: the later one is paired,
    // as a seen-values map overwritten per value would report.
    assert_eq!(two_sum(vec![1, 1, 5], 6), vec![1, 2]);
}

#[test]
fn pair_finders_prefer_lexicographically_least_pair() {
    // Both (0, 3) and (2, 4) sum to 240; the least pair wins.
    assert_eq!(find_ingredient_pair(vec![80, 125, 200, 160, 40, 110], 240), vec![0, 3]);
}
