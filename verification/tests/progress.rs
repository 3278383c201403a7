use rust_tour::progress::{
    effective_total, session_tag, total_needs_refresh, ExerciseHistoryEntry, ProgressRecord,
    SessionStats, FALLBACK_TOTAL_EXERCISES, PLACEHOLDER_TOTAL_EXERCISES,
};

fn entry(id: &str, status: &str) -> ExerciseHistoryEntry {
    ExerciseHistoryEntry {
        exercise_id: id.to_string(),
        viewed_at: None,
        completed_at: None,
        time_taken_minutes: None,
        status: status.to_string(),
        session_id: None,
        hints_used: None,
    }
}

#[test]
fn total_falls_back_to_50() {
    assert_eq!(FALLBACK_TOTAL_EXERCISES, 50);
    assert_eq!(effective_total(0), 50);
    assert_eq!(effective_total(1), 1);
    assert_eq!(effective_total(137), 137);
    assert_eq!(effective_total(u32::MAX), u32::MAX);
}

#[test]
fn totals_of_0_and_200_are_refreshed() {
    assert_eq!(PLACEHOLDER_TOTAL_EXERCISES, 200);
    assert!(total_needs_refresh(0));
    assert!(total_needs_refresh(200));
    assert!(!total_needs_refresh(1));
    assert!(!total_needs_refresh(50));
    assert!(!total_needs_refresh(199));
    assert!(!total_needs_refresh(201));
}

#[test]
fn refresh_total_replaces_only_stale_totals() {
    let mut record = ProgressRecord::new(0);
    assert!(record.refresh_total(42));
    assert_eq!(record.total_exercises, 42);
    assert!(!record.refresh_total(43));
    assert_eq!(record.total_exercises, 42);
    let mut record = ProgressRecord::new(200);
    assert!(record.refresh_total(50));
    assert_eq!(record.total_exercises, 50);
}

#[test]
fn session_tag_has_the_prefix() {
    assert_eq!(session_tag("1700000000000"), "session_1700000000000");
    assert_eq!(session_tag(""), "session_");
}

#[test]
fn new_record_is_all_zero() {
    let record = ProgressRecord::new(50);
    assert_eq!(
        record,
        ProgressRecord {
            exercises_completed: 0,
            total_exercises: 50,
            total_time_minutes: 0,
            session_stats: SessionStats {
                exercises_viewed: 0,
                exercises_completed: 0,
                hints_used: 0,
                time_spent: 0,
            },
            exercise_history: Vec::new(),
        }
    );
}

#[test]
fn first_view_adds_an_entry() {
    let mut record = ProgressRecord::new(50);
    record.record_view("ch01/ex01", "2024-01-01T00:00:00+00:00");
    assert_eq!(record.session_stats.exercises_viewed, 1);
    assert_eq!(
        record.exercise_history,
        vec![ExerciseHistoryEntry {
            viewed_at: Some("2024-01-01T00:00:00+00:00".to_string()),
            ..entry("ch01/ex01", "viewed")
        }]
    );
}

#[test]
fn repeated_view_only_counts() {
    let mut record = ProgressRecord::new(50);
    record.record_view("ch01/ex01", "t0");
    record.record_view("ch01/ex01", "t1");
    record.record_view("ch01/ex02", "t2");
    assert_eq!(record.session_stats.exercises_viewed, 3);
    assert_eq!(record.exercise_history.len(), 2);
    assert_eq!(record.exercise_history[0].viewed_at, Some("t0".to_string()));
    assert_eq!(record.exercise_history[1].exercise_id, "ch01/ex02");
    assert_eq!(record.exercises_completed, 0);
    assert_eq!(record.session_stats.hints_used, 0);
}

#[test]
fn first_hint_adds_an_entry_in_progress() {
    let mut record = ProgressRecord::new(50);
    record.record_hint("ch01/ex01", 2, "t0");
    assert_eq!(record.session_stats.hints_used, 1);
    assert_eq!(
        record.exercise_history,
        vec![ExerciseHistoryEntry {
            viewed_at: Some("t0".to_string()),
            hints_used: Some(vec![2]),
            ..entry("ch01/ex01", "in_progress")
        }]
    );
}

#[test]
fn hint_levels_are_kept_once_in_order_taken() {
    let mut record = ProgressRecord::new(50);
    record.record_hint("a", 2, "t0");
    record.record_hint("a", 1, "t1");
    record.record_hint("a", 2, "t2");
    record.record_hint("a", 3, "t3");
    record.record_hint("a", 1, "t4");
    assert_eq!(record.session_stats.hints_used, 5);
    assert_eq!(record.exercise_history.len(), 1);
    assert_eq!(record.exercise_history[0].hints_used, Some(vec![2, 1, 3]));
    assert_eq!(record.exercise_history[0].viewed_at, Some("t0".to_string()));
    assert_eq!(record.exercise_history[0].status, "in_progress");
}

#[test]
fn hint_on_a_viewed_exercise_keeps_its_status() {
    let mut record = ProgressRecord::new(50);
    record.record_view("a", "t0");
    record.record_hint("a", 1, "t1");
    assert_eq!(
        record.exercise_history,
        vec![ExerciseHistoryEntry {
            viewed_at: Some("t0".to_string()),
            hints_used: Some(vec![1]),
            ..entry("a", "viewed")
        }]
    );
}

#[test]
fn completion_of_a_new_exercise() {
    let mut record = ProgressRecord::new(50);
    assert!(record.record_completion("a", Some(12), "t0", "session_1"));
    assert_eq!(record.exercises_completed, 1);
    assert_eq!(record.session_stats.exercises_completed, 1);
    assert_eq!(record.total_time_minutes, 12);
    assert_eq!(record.total_exercises, 50);
    assert_eq!(
        record.exercise_history,
        vec![ExerciseHistoryEntry {
            completed_at: Some("t0".to_string()),
            time_taken_minutes: Some(12),
            session_id: Some("session_1".to_string()),
            ..entry("a", "completed")
        }]
    );
    assert!(record.is_completed("a"));
    assert!(!record.is_completed("b"));
}

#[test]
fn completion_without_time_adds_no_minutes() {
    let mut record = ProgressRecord::new(50);
    record.record_completion("a", Some(7), "t0", "s");
    assert!(record.record_completion("b", None, "t1", "s"));
    assert_eq!(record.total_time_minutes, 7);
    assert_eq!(record.exercises_completed, 2);
    assert_eq!(record.exercise_history[1].time_taken_minutes, None);
}

#[test]
fn completion_updates_the_existing_entry() {
    let mut record = ProgressRecord::new(50);
    record.record_view("a", "t0");
    record.record_hint("a", 1, "t1");
    record.record_view("b", "t2");
    assert!(record.record_completion("a", Some(3), "t3", "session_9"));
    assert_eq!(record.exercise_history.len(), 2);
    assert_eq!(
        record.exercise_history[0],
        ExerciseHistoryEntry {
            exercise_id: "a".to_string(),
            viewed_at: Some("t0".to_string()),
            completed_at: Some("t3".to_string()),
            time_taken_minutes: Some(3),
            status: "completed".to_string(),
            session_id: Some("session_9".to_string()),
            hints_used: Some(vec![1]),
        }
    );
    assert_eq!(record.exercise_history[1].status, "viewed");
    assert_eq!(record.session_stats.exercises_viewed, 2);
    assert_eq!(record.session_stats.hints_used, 1);
    assert_eq!(record.session_stats.exercises_completed, 1);
}

#[test]
fn second_completion_changes_nothing() {
    let mut record = ProgressRecord::new(50);
    record.record_completion("a", Some(3), "t0", "s0");
    let before = record.clone();
    assert!(!record.record_completion("a", Some(99), "t1", "s1"));
    assert_eq!(record, before);
}

#[test]
fn only_the_first_entry_of_an_exercise_counts() {
    let mut record = ProgressRecord::new(50);
    record.exercise_history.push(entry("a", "viewed"));
    record.exercise_history.push(ExerciseHistoryEntry {
        completed_at: Some("earlier".to_string()),
        ..entry("a", "completed")
    });
    assert_eq!(record.find("a"), Some(0));
    assert!(!record.is_completed("a"));
    assert!(record.record_completion("a", None, "t0", "s0"));
    assert_eq!(record.exercise_history[0].completed_at, Some("t0".to_string()));
    assert_eq!(record.exercise_history[1].completed_at, Some("earlier".to_string()));
    record.record_hint("a", 4, "t1");
    assert_eq!(record.exercise_history[0].hints_used, Some(vec![4]));
    assert_eq!(record.exercise_history[1].hints_used, None);
    assert_eq!(record.exercise_history.len(), 2);
}

#[test]
fn find_reports_the_first_place() {
    let mut record = ProgressRecord::new(50);
    assert_eq!(record.find("a"), None);
    record.record_view("a", "t");
    record.record_view("b", "t");
    record.record_view("c", "t");
    assert_eq!(record.find("a"), Some(0));
    assert_eq!(record.find("c"), Some(2));
    assert_eq!(record.find("d"), None);
    assert_eq!(record.find(""), None);
}

#[test]
fn counters_reach_their_limit() {
    let mut record = ProgressRecord::new(50);
    record.session_stats.exercises_viewed = u32::MAX - 1;
    record.session_stats.hints_used = u32::MAX - 1;
    record.exercises_completed = u32::MAX - 1;
    record.session_stats.exercises_completed = u32::MAX - 1;
    record.total_time_minutes = u32::MAX - 5;
    record.record_view("a", "t");
    record.record_hint("a", 1, "t");
    assert!(record.record_completion("a", Some(5), "t", "s"));
    assert_eq!(record.session_stats.exercises_viewed, u32::MAX);
    assert_eq!(record.session_stats.hints_used, u32::MAX);
    assert_eq!(record.exercises_completed, u32::MAX);
    assert_eq!(record.session_stats.exercises_completed, u32::MAX);
    assert_eq!(record.total_time_minutes, u32::MAX);
}
