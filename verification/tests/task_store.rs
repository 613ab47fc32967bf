use rustflow_server::errors::RustFlowError;
use rustflow_server::model::{CreateTask, Priority, TaskFilter, TaskStatus};
use rustflow_server::tasks::TaskStore;

fn payload(title: &str, description: Option<&str>, priority: Priority) -> CreateTask {
    CreateTask {
        title: title.to_string(),
        description: description.map(|d| d.to_string()),
        priority,
    }
}

fn no_filter() -> TaskFilter {
    TaskFilter { status: None, priority: None, search: None }
}

#[test]
fn seeded_store_holds_three_tasks() {
    let store = TaskStore::new();
    assert_eq!(store.next_id, 4);
    assert_eq!(store.tasks.len(), 3);
    assert_eq!(store.tasks[0].id, 1);
    assert_eq!(store.tasks[0].title, "Set up workspace");
    assert_eq!(store.tasks[0].description.as_deref(), Some("Initialize the Cargo workspace"));
    assert_eq!(store.tasks[0].priority, Priority::High);
    assert_eq!(store.tasks[0].status, TaskStatus::Done);
    assert_eq!(store.tasks[1].title, "Add Axum");
    assert_eq!(store.tasks[1].status, TaskStatus::InProgress);
    assert_eq!(store.tasks[2].title, "Write extractors lesson");
    assert_eq!(store.tasks[2].description, None);
    assert_eq!(store.tasks[2].priority, Priority::Medium);
    assert_eq!(store.tasks[2].status, TaskStatus::Pending);
}

#[test]
fn empty_filter_lists_every_task() {
    let store = TaskStore::new();
    let all = store.list(&no_filter());
    let ids: Vec<u64> = all.iter().map(|t| t.id).collect();
    assert_eq!(ids, vec![1, 2, 3]);
}

#[test]
fn filter_by_status() {
    let store = TaskStore::new();
    let f = TaskFilter { status: Some(TaskStatus::Done), priority: None, search: None };
    let ids: Vec<u64> = store.list(&f).iter().map(|t| t.id).collect();
    assert_eq!(ids, vec![1]);
}

#[test]
fn filter_by_priority() {
    let store = TaskStore::new();
    let f = TaskFilter { status: None, priority: Some(Priority::High), search: None };
    let ids: Vec<u64> = store.list(&f).iter().map(|t| t.id).collect();
    assert_eq!(ids, vec![1, 2]);
}

#[test]
fn filter_by_search_in_title_and_description() {
    let store = TaskStore::new();
    let f = TaskFilter { status: None, priority: None, search: Some("workspace".to_string()) };
    let ids: Vec<u64> = store.list(&f).iter().map(|t| t.id).collect();
    assert_eq!(ids, vec![1]);
    let f = TaskFilter { status: None, priority: None, search: Some("HTTP".to_string()) };
    let ids: Vec<u64> = store.list(&f).iter().map(|t| t.id).collect();
    assert_eq!(ids, vec![2]);
    let f = TaskFilter { status: None, priority: None, search: Some("missing".to_string()) };
    assert!(store.list(&f).is_empty());
}

#[test]
fn filter_conditions_combine() {
    let store = TaskStore::new();
    let f = TaskFilter {
        status: Some(TaskStatus::InProgress),
        priority: Some(Priority::High),
        search: Some("Axum".to_string()),
    };
    let ids: Vec<u64> = store.list(&f).iter().map(|t| t.id).collect();
    assert_eq!(ids, vec![2]);
    let f = TaskFilter { status: Some(TaskStatus::Done), priority: Some(Priority::Medium), search: None };
    assert!(store.list(&f).is_empty());
}

#[test]
fn get_one_finds_a_task() {
    let store = TaskStore::new();
    let t = store.get_one(2).unwrap();
    assert_eq!(t.id, 2);
    assert_eq!(t.title, "Add Axum");
}

#[test]
fn get_one_missing_is_not_found() {
    let store = TaskStore::new();
    match store.get_one(42) {
        Err(RustFlowError::NotFound(m)) => assert_eq!(m, "Task with id 42 does not exist"),
        other => panic!("unexpected {:?}", other),
    }
}

#[test]
fn create_then_get_gives_back_the_task() {
    let mut store = TaskStore::new();
    let t = store.create(payload("Test nested routing", None, Priority::Low)).unwrap();
    assert_eq!(t.id, 4);
    assert_eq!(t.status, TaskStatus::Pending);
    assert_eq!(t.priority, Priority::Low);
    assert_eq!(store.next_id, 5);
    let back = store.get_one(4).unwrap();
    assert_eq!(back.title, "Test nested routing");
    assert_eq!(back.description, None);
    assert_eq!(store.tasks.len(), 4);
}

#[test]
fn create_with_taken_title_conflicts() {
    let mut store = TaskStore::new();
    match store.create(payload("Add Axum", Some("again"), Priority::Low)) {
        Err(RustFlowError::Conflict(m)) => assert_eq!(m, "Task with title Add Axum already exists"),
        other => panic!("unexpected {:?}", other),
    }
    assert_eq!(store.tasks.len(), 3);
    assert_eq!(store.next_id, 4);
}

#[test]
fn delete_then_get_is_not_found() {
    let mut store = TaskStore::new();
    assert!(store.delete(3).is_ok());
    assert_eq!(store.tasks.len(), 2);
    assert!(matches!(store.get_one(3), Err(RustFlowError::NotFound(_))));
    assert_eq!(store.get_one(1).unwrap().title, "Set up workspace");
    match store.delete(3) {
        Err(RustFlowError::NotFound(m)) => assert_eq!(m, "Task with id 3 does not exist"),
        other => panic!("unexpected {:?}", other),
    }
}

#[test]
fn ids_are_not_reused_after_delete() {
    let mut store = TaskStore::new();
    store.delete(3).unwrap();
    let t = store.create(payload("Fresh", None, Priority::Medium)).unwrap();
    assert_eq!(t.id, 4);
}

#[test]
fn update_keeps_id_and_status() {
    let mut store = TaskStore::new();
    let t = store.update(1, payload("Updated title", None, Priority::Low)).unwrap();
    assert_eq!(t.id, 1);
    assert_eq!(t.title, "Updated title");
    assert_eq!(t.priority, Priority::Low);
    assert_eq!(t.status, TaskStatus::Done);
    assert_eq!(store.get_one(1).unwrap().title, "Updated title");
    assert_eq!(store.tasks.len(), 3);
}

#[test]
fn update_missing_is_not_found() {
    let mut store = TaskStore::new();
    match store.update(9, payload("x", None, Priority::Low)) {
        Err(RustFlowError::NotFound(m)) => assert_eq!(m, "Task with id 9 does not exist"),
        other => panic!("unexpected {:?}", other),
    }
}

#[test]
fn change_status_keeps_other_fields() {
    let mut store = TaskStore::new();
    let t = store.change_status(3, TaskStatus::Done).unwrap();
    assert_eq!(t.status, TaskStatus::Done);
    assert_eq!(t.title, "Write extractors lesson");
    assert_eq!(t.priority, Priority::Medium);
    assert_eq!(store.get_one(3).unwrap().status, TaskStatus::Done);
    assert!(matches!(store.change_status(7, TaskStatus::Done), Err(RustFlowError::NotFound(_))));
}

#[test]
fn enrichment_lookup_message() {
    let store = TaskStore::new();
    assert_eq!(store.find_for_enrichment(1).unwrap().id, 1);
    match store.find_for_enrichment(1234567890) {
        Err(RustFlowError::NotFound(m)) => assert_eq!(m, "Task with id 1234567890 not found"),
        other => panic!("unexpected {:?}", other),
    }
}

#[test]
fn all_copies_every_task() {
    let store = TaskStore::new();
    let all = store.all();
    assert_eq!(all.len(), 3);
    assert_eq!(all[1].title, "Add Axum");
}
