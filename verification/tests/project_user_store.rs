use rustflow_server::errors::RustFlowError;
use rustflow_server::model::{CreateProject, CreateUser};
use rustflow_server::projects::ProjectStore;
use rustflow_server::users::UserStore;

#[test]
fn project_store_starts_empty() {
    let store = ProjectStore::new();
    assert!(store.list().is_empty());
    assert_eq!(store.next_id, 1);
}

#[test]
fn project_create_get_delete() {
    let mut store = ProjectStore::new();
    let p = store.create(CreateProject { name: "New Project".to_string(), description: None });
    assert_eq!(p.id, 1);
    let q = store.create(CreateProject { name: "Second".to_string(), description: Some("d".to_string()) });
    assert_eq!(q.id, 2);
    assert_eq!(store.get_one(2).unwrap().name, "Second");
    assert_eq!(store.list().len(), 2);
    assert!(store.delete(1).is_ok());
    match store.get_one(1) {
        Err(RustFlowError::NotFound(m)) => assert_eq!(m, "Project with id 1 not found"),
        other => panic!("unexpected {:?}", other),
    }
    match store.delete(1) {
        Err(RustFlowError::NotFound(m)) => assert_eq!(m, "Project with id 1 does not exist"),
        other => panic!("unexpected {:?}", other),
    }
    let r = store.create(CreateProject { name: "Third".to_string(), description: None });
    assert_eq!(r.id, 3);
}

#[test]
fn user_create_get_delete() {
    let mut store = UserStore::new();
    let u = store.create(CreateUser {
        email: "ada@example.com".to_string(),
        first_name: "Ada".to_string(),
        last_name: "Lovelace".to_string(),
    });
    assert_eq!(u.id, 1);
    let back = store.get_one(1).unwrap();
    assert_eq!(back.email, "ada@example.com");
    assert_eq!(back.last_name, "Lovelace");
    assert_eq!(store.list().len(), 1);
    assert!(store.delete(1).is_ok());
    assert!(store.list().is_empty());
    match store.delete(1) {
        Err(RustFlowError::NotFound(m)) => assert_eq!(m, "User with id 1 not found"),
        other => panic!("unexpected {:?}", other),
    }
    match store.get_one(5) {
        Err(RustFlowError::NotFound(m)) => assert_eq!(m, "User with id 5 not found"),
        other => panic!("unexpected {:?}", other),
    }
}
