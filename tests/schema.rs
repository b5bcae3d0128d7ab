use aura::migration::{Migration, Task};
use aura::window::mini_mode_layout;

#[test]
fn migration_name_is_stable() {
    assert_eq!(Migration.name(), "create_task_table");
}

#[test]
fn identifiers_are_snake_case() {
    assert_eq!(Task::Table.name(), "task");
    assert_eq!(Task::IsCompleted.name(), "is_completed");
    assert_eq!(Task::BreakDuration.name(), "break_duration");
    assert_eq!(Task::CreatedAt.name(), "created_at");
    assert_eq!(Task::UpdatedAt.name(), "updated_at");
}

#[test]
fn mini_mode_is_small_and_pinned() {
    let l = mini_mode_layout(true);
    assert!(l.always_on_top);
    assert_eq!((l.width, l.height), (200, 120));
    assert!(!l.recenter_and_focus);
}

#[test]
fn leaving_mini_mode_restores_main_window() {
    let l = mini_mode_layout(false);
    assert!(!l.always_on_top);
    assert_eq!((l.width, l.height), (800, 600));
    assert!(l.recenter_and_focus);
}
