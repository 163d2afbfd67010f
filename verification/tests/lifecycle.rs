use todo_model::{Todo, TodoStatus};

#[test]
fn test_new_accepts_empty_title() {
    let todo = Todo::new("");
    assert_eq!(todo.title, "");
    assert_eq!(todo.status, TodoStatus::Pending);
    assert!(!todo.is_deleted);
}

#[test]
fn test_skip_twice_is_idempotent() {
    let mut todo = Todo::new("Water the plants");
    todo.skip().unwrap();
    todo.skip().unwrap();
    assert_eq!(todo.status, TodoStatus::Skipped);
    assert!(!todo.is_deleted);
}

#[test]
fn test_complete_twice_is_idempotent() {
    let mut todo = Todo::new("Water the plants");
    todo.complete().unwrap();
    todo.complete().unwrap();
    assert_eq!(todo.status, TodoStatus::Completed);
    assert!(!todo.is_deleted);
}

#[test]
fn test_complete_a_skipped_todo() {
    let mut todo = Todo::new("Water the plants");
    todo.skip().unwrap();
    assert_eq!(todo.status, TodoStatus::Skipped);
    todo.complete().unwrap();
    assert_eq!(todo.status, TodoStatus::Completed);
}

#[test]
fn test_skip_completed_leaves_status_unchanged() {
    let mut todo = Todo::new("Water the plants");
    todo.complete().unwrap();
    let error = todo.skip().unwrap_err();
    assert_eq!(error.message, "Cannot skip a completed todo");
    assert_eq!(todo.status, TodoStatus::Completed);
    assert!(!todo.is_deleted);
}

#[test]
fn test_delete_twice_is_idempotent() {
    let mut todo = Todo::new("Water the plants");
    todo.delete();
    todo.delete();
    assert!(todo.is_deleted);
}

#[test]
fn test_deleted_todo_keeps_its_status() {
    let mut todo = Todo::new("Water the plants");
    todo.skip().unwrap();
    todo.delete();
    assert!(todo.is_deleted);
    assert_eq!(todo.status, TodoStatus::Skipped);
    todo.complete().unwrap_err();
    assert_eq!(todo.status, TodoStatus::Skipped);
    todo.skip().unwrap_err();
    assert_eq!(todo.status, TodoStatus::Skipped);
    assert_eq!(todo.title, "Water the plants");
}

#[test]
fn test_error_display_label_is_fixed() {
    let mut deleted = Todo::new("Water the plants");
    deleted.delete();
    let e1 = deleted.skip().unwrap_err();
    let e2 = deleted.complete().unwrap_err();
    assert_eq!(e1.display_label(), "Invalid action for Todo");
    assert_eq!(e2.display_label(), "Invalid action for Todo");
    assert_ne!(e1.message, e2.message);
}
