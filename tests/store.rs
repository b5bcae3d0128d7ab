use aura::error::TaskError;
use aura::store::TaskStore;
use aura::task::{complete_found, update_found, Model, TaskInput};

fn input(title: &str, duration: i32, mode: &str, break_duration: i32, tags: &[&str], est: i32) -> TaskInput {
    TaskInput {
        title: title.to_string(),
        duration,
        mode: mode.to_string(),
        break_duration,
        tags: tags.iter().map(|t| t.to_string()).collect(),
        est,
    }
}

fn ids(tasks: &[Model]) -> Vec<i32> {
    tasks.iter().map(|t| t.id).collect()
}

#[test]
fn write_spec_scenario() {
    let mut store = TaskStore::new();
    let id = store
        .create_task(input("Write spec", 25, "timer", 5, &["work", "writing"], 1), 1_000)
        .unwrap();
    assert_eq!(id, 1);
    let all = store.get_all_tasks(false);
    assert_eq!(all.len(), 1);
    let t = &all[0];
    assert_eq!(t.id, 1);
    assert_eq!(t.title, "Write spec");
    assert_eq!(t.duration, 25);
    assert_eq!(t.mode, "timer");
    assert!(!t.is_completed);
    assert_eq!(t.break_duration, 5);
    assert_eq!(t.tags, vec!["work".to_string(), "writing".to_string()]);
    assert_eq!(t.act, 0);
    assert_eq!(t.est, 1);
    store.complete_task_in_db(1, 2_000);
    assert!(store.get_all_tasks(true).is_empty());
}

#[test]
fn create_then_read_shows_fresh_task() {
    let mut store = TaskStore::new();
    let id = store.create_task(input("Read", 30, "stopwatch", 10, &[], 3), 5_000).unwrap();
    let all = store.get_all_tasks(false);
    let t = all.iter().find(|t| t.id == id).unwrap();
    assert_eq!(t.title, "Read");
    assert_eq!(t.duration, 30);
    assert_eq!(t.mode, "stopwatch");
    assert_eq!(t.break_duration, 10);
    assert!(t.tags.is_empty());
    assert_eq!(t.est, 3);
    assert!(!t.is_completed);
    assert_eq!(t.act, 0);
    assert_eq!(t.created_at, 5_000);
    assert_eq!(t.updated_at, t.created_at);
}

#[test]
fn absent_id_operations_change_nothing() {
    let mut store = TaskStore::new();
    store.create_task(input("A", 1, "timer", 1, &["x"], 1), 10).unwrap();
    let before = store.get_all_tasks(false);
    store.complete_task_in_db(42, 20);
    store.update_task_in_db(42, input("B", 2, "stopwatch", 2, &[], 2), 30);
    store.delete_task_in_db(42);
    let after = store.get_all_tasks(false);
    assert_eq!(after.len(), before.len());
    assert_eq!(after[0].title, before[0].title);
    assert_eq!(after[0].updated_at, before[0].updated_at);
    assert_eq!(after[0].is_completed, before[0].is_completed);
    assert_eq!(store.create_task(input("C", 1, "timer", 1, &[], 1), 40).unwrap(), 2);
}

#[test]
fn completion_survives_update_and_completion() {
    let mut store = TaskStore::new();
    let id = store.create_task(input("A", 1, "timer", 1, &[], 1), 10).unwrap();
    store.complete_task_in_db(id, 20);
    store.update_task_in_db(id, input("A2", 2, "timer", 2, &[], 2), 30);
    store.complete_task_in_db(id, 40);
    let all = store.get_all_tasks(false);
    assert!(all[0].is_completed);
    assert_eq!(all[0].title, "A2");
    assert_eq!(all[0].updated_at, 40);
}

#[test]
fn filter_excludes_completed_and_orders_newest_first() {
    let mut store = TaskStore::new();
    let a = store.create_task(input("A", 1, "timer", 1, &[], 1), 100).unwrap();
    store.complete_task_in_db(a, 150);
    let b = store.create_task(input("B", 1, "timer", 1, &[], 1), 200).unwrap();
    assert_eq!(ids(&store.get_all_tasks(true)), vec![b]);
    assert_eq!(ids(&store.get_all_tasks(false)), vec![b, a]);
}

#[test]
fn listing_follows_creation_time_not_insertion() {
    let mut store = TaskStore::new();
    let late = store.create_task(input("late", 1, "timer", 1, &[], 1), 3_000).unwrap();
    let early = store.create_task(input("early", 1, "timer", 1, &[], 1), 1_000).unwrap();
    let middle = store.create_task(input("middle", 1, "timer", 1, &[], 1), 2_000).unwrap();
    let tie = store.create_task(input("tie", 1, "timer", 1, &[], 1), 2_000).unwrap();
    assert_eq!(ids(&store.get_all_tasks(false)), vec![late, tie, middle, early]);
}

#[test]
fn update_overwrites_fields_and_time() {
    let mut store = TaskStore::new();
    let id = store.create_task(input("Old", 10, "timer", 2, &["a"], 1), 100).unwrap();
    store.update_task_in_db(id, input("New", 50, "stopwatch", 7, &["b", "c"], 4), 200);
    let t = &store.get_all_tasks(false)[0];
    assert_eq!(t.id, id);
    assert_eq!(t.title, "New");
    assert_eq!(t.duration, 50);
    assert_eq!(t.mode, "stopwatch");
    assert_eq!(t.break_duration, 7);
    assert_eq!(t.tags, vec!["b".to_string(), "c".to_string()]);
    assert_eq!(t.est, 4);
    assert_eq!(t.act, 0);
    assert_eq!(t.created_at, 100);
    assert!(t.updated_at > 100);
}

#[test]
fn delete_removes_only_that_id() {
    let mut store = TaskStore::new();
    let a = store.create_task(input("A", 1, "timer", 1, &[], 1), 1).unwrap();
    let b = store.create_task(input("B", 1, "timer", 1, &[], 1), 2).unwrap();
    store.delete_task_in_db(a);
    assert_eq!(ids(&store.get_all_tasks(false)), vec![b]);
    store.delete_task_in_db(a);
    assert_eq!(ids(&store.get_all_tasks(false)), vec![b]);
    let c = store.create_task(input("C", 1, "timer", 1, &[], 1), 3).unwrap();
    assert_eq!(c, 3);
}

#[test]
fn complete_found_marks_row() {
    let row = Model::created(7, input("T", 5, "timer", 1, &["x"], 2), 10);
    let done = complete_found(Some(row), 20).unwrap();
    assert!(done.is_completed);
    assert_eq!(done.id, 7);
    assert_eq!(done.created_at, 10);
    assert_eq!(done.updated_at, 20);
    assert!(complete_found(None, 20).is_none());
}

#[test]
fn update_found_overwrites_row() {
    let row = Model::created(7, input("T", 5, "timer", 1, &["x"], 2), 10);
    let new = update_found(Some(row), input("U", 6, "stopwatch", 3, &["y"], 9), 30).unwrap();
    assert_eq!(new.id, 7);
    assert_eq!(new.title, "U");
    assert_eq!(new.mode, "stopwatch");
    assert_eq!(new.tags, vec!["y".to_string()]);
    assert_eq!(new.est, 9);
    assert_eq!(new.updated_at, 30);
    assert_eq!(new.created_at, 10);
    assert!(update_found(None, input("U", 6, "stopwatch", 3, &[], 9), 30).is_none());
}

#[test]
fn error_message_is_flattened_text() {
    assert_eq!(TaskError::Query("disk I/O error".to_string()).message(), "disk I/O error");
    assert_eq!(TaskError::Connection("unable to open".to_string()).message(), "unable to open");
}
