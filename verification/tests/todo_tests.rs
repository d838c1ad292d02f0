use agent_core::todo::{run_todo, TodoItem, TodoManager, TodoStatus};

#[test]
fn test_todo_manager_new() {
    let manager = TodoManager::new();
    let rendered = manager.render();
    assert_eq!(rendered, "No todos.");
}

#[test]
fn test_todo_manager_update() {
    let mut manager = TodoManager::new();
    let items = vec![TodoItem {
        content: "Test task".to_string(),
        status: TodoStatus::Pending,
        active_form: "Testing".to_string(),
    }];
    let result = manager.update(items);
    assert!(result.is_ok());
    let rendered = manager.render();
    assert!(rendered.contains("[ ] Test task"));
}

#[test]
fn test_todo_manager_update_single_item() {
    let mut manager = TodoManager::new();
    let items = vec![TodoItem {
        content: "Test task".to_string(),
        status: TodoStatus::Pending,
        active_form: "Testing".to_string(),
    }];
    let result = manager.update(items);
    assert!(result.is_ok());
    let rendered = manager.render();
    assert!(rendered.contains("[ ] Test task"));
    assert!(rendered.contains("(0/1 completed)"));
}

#[test]
fn test_todo_manager_multiple_items() {
    let mut manager = TodoManager::new();
    let items = vec![
        TodoItem {
            content: "Task 1".to_string(),
            status: TodoStatus::Completed,
            active_form: "Doing task 1".to_string(),
        },
        TodoItem {
            content: "Task 2".to_string(),
            status: TodoStatus::InProgress,
            active_form: "Doing task 2".to_string(),
        },
        TodoItem {
            content: "Task 3".to_string(),
            status: TodoStatus::Pending,
            active_form: "Doing task 3".to_string(),
        },
    ];
    let result = manager.update(items);
    assert!(result.is_ok());
    let rendered = manager.render();
    assert!(rendered.contains("[x] Task 1"));
    assert!(rendered.contains("[>] Task 2 <- Doing task 2"));
    assert!(rendered.contains("[ ] Task 3"));
    assert!(rendered.contains("(1/3 completed)"));
}

#[test]
fn test_todo_manager_max_items_enforcement() {
    let mut manager = TodoManager::new();
    let items: Vec<TodoItem> = (0..21)
        .map(|i| TodoItem {
            content: format!("Task {}", i),
            status: TodoStatus::Pending,
            active_form: format!("Doing task {}", i),
        })
        .collect();
    let result = manager.update(items);
    assert!(result.is_err());
    assert!(result.unwrap_err().message().contains("Max 20 todos"));
}

#[test]
fn test_todo_manager_one_in_progress_enforcement() {
    let mut manager = TodoManager::new();
    let items = vec![
        TodoItem {
            content: "Task 1".to_string(),
            status: TodoStatus::InProgress,
            active_form: "Doing task 1".to_string(),
        },
        TodoItem {
            content: "Task 2".to_string(),
            status: TodoStatus::InProgress,
            active_form: "Doing task 2".to_string(),
        },
    ];
    let result = manager.update(items);
    assert!(result.is_err());
    assert!(result
        .unwrap_err()
        .message()
        .contains("Only one task can be in_progress"));
}

#[test]
fn test_todo_manager_empty_content_rejected() {
    let mut manager = TodoManager::new();
    let items = vec![TodoItem {
        content: "   ".to_string(), // Empty/whitespace only
        status: TodoStatus::Pending,
        active_form: "Testing".to_string(),
    }];
    let result = manager.update(items);
    assert!(result.is_err());
    assert!(result.unwrap_err().message().contains("content required"));
}

#[test]
fn test_todo_atomic_replace() {
    // A rejected update leaves the stored list exactly as it was.
    let mut manager = TodoManager::new();
    let ok = manager.update(vec![TodoItem {
        content: "Item A".to_string(),
        status: TodoStatus::Pending,
        active_form: "Doing A".to_string(),
    }]);
    assert!(ok.is_ok());

    let too_many: Vec<TodoItem> = (0..21)
        .map(|i| TodoItem {
            content: format!("Task {}", i),
            status: TodoStatus::Pending,
            active_form: format!("Doing task {}", i),
        })
        .collect();
    let rejected = manager.update(too_many);
    assert!(rejected.is_err());

    let rendered = manager.render();
    assert!(rendered.contains("[ ] Item A"));
    assert!(rendered.contains("(0/1 completed)"));
    assert!(!rendered.contains("Task 0"));
}

#[test]
fn test_todo_blank_active_form_rejected() {
    let mut manager = TodoManager::new();
    let items = vec![TodoItem {
        content: "Real task".to_string(),
        status: TodoStatus::Pending,
        active_form: " \t ".to_string(),
    }];
    let result = manager.update(items);
    assert!(result.is_err());
    assert_eq!(result.unwrap_err().message(), "Item 0: activeForm required");
}

#[test]
fn test_todo_error_reports_first_bad_index() {
    let mut manager = TodoManager::new();
    let items = vec![
        TodoItem {
            content: "Fine".to_string(),
            status: TodoStatus::Pending,
            active_form: "Working".to_string(),
        },
        TodoItem {
            content: "".to_string(),
            status: TodoStatus::Pending,
            active_form: "Working".to_string(),
        },
    ];
    let result = manager.update(items);
    assert_eq!(result.unwrap_err().message(), "Item 1: content required");
}

#[test]
fn test_run_todo_renders_or_reports() {
    let mut manager = TodoManager::new();
    let out = run_todo(
        &mut manager,
        vec![TodoItem {
            content: "One".to_string(),
            status: TodoStatus::InProgress,
            active_form: "Doing one".to_string(),
        }],
    );
    assert_eq!(out, "[>] One <- Doing one\n\n(0/1 completed)");

    let err = run_todo(
        &mut manager,
        vec![TodoItem {
            content: " ".to_string(),
            status: TodoStatus::Pending,
            active_form: "x".to_string(),
        }],
    );
    assert_eq!(err, "Error: Item 0: content required");
    // The stored list is untouched by the rejected update.
    assert_eq!(manager.render(), "[>] One <- Doing one\n\n(0/1 completed)");
}
