use rustflow_server::auth::{ApiKeyEntry, ApiKeys};
use rustflow_server::errors::RustFlowError;

fn entry(key: &str, user: &str, role: &str) -> ApiKeyEntry {
    ApiKeyEntry { key_name: key.to_string(), user_name: user.to_string(), role: role.to_string() }
}

#[test]
fn every_error_kind_has_its_status_and_label() {
    let cases = vec![
        (RustFlowError::NotFound("a".to_string()), 404, "Not Found", "Not found `a`"),
        (RustFlowError::BadRequest("b".to_string()), 400, "Bad Request", "Bad request `b`"),
        (RustFlowError::UnprocessableEntity("c".to_string()), 422, "Validation Failed", "Validation Failed `c`"),
        (RustFlowError::ExternalService("d".to_string()), 502, "External Service Error", "External Service Error `d`"),
        (RustFlowError::Internal("e".to_string()), 500, "Internal Server Error", "Internal Server Error `e`"),
        (RustFlowError::Conflict("f".to_string()), 409, "Conflict error", "Conflict error `f`"),
        (RustFlowError::Unauthorized("g".to_string()), 401, "Unauthorized", "Unauthorized `g`"),
        (RustFlowError::Forbidden("h".to_string()), 403, "Forbidden", "Forbidden `h`"),
    ];
    let mut statuses = Vec::new();
    for (e, status, label, message) in cases {
        assert_eq!(e.status_code(), status);
        assert_eq!(e.label(), label);
        assert_eq!(e.message(), message);
        let details = e.details().clone();
        let body = e.into_body();
        assert_eq!(body.status, status);
        assert_eq!(body.error, label);
        assert_eq!(body.details, details);
        assert!(!statuses.contains(&status));
        statuses.push(status);
    }
}

#[test]
fn missing_key_is_unauthorized() {
    let keys = ApiKeys::from_entries(vec![entry("k1", "alice", "admin")]);
    match keys.authenticate(None) {
        Err(RustFlowError::Unauthorized(m)) => assert_eq!(m, "Missing x-api-key header"),
        other => panic!("unexpected {:?}", other),
    }
}

#[test]
fn unknown_key_is_forbidden() {
    let keys = ApiKeys::from_entries(vec![entry("k1", "alice", "admin")]);
    match keys.authenticate(Some("nope")) {
        Err(RustFlowError::Forbidden(m)) => assert_eq!(m, "Invalid x-api-key header"),
        other => panic!("unexpected {:?}", other),
    }
}

#[test]
fn known_key_gives_its_client() {
    let keys = ApiKeys::from_entries(vec![entry("k1", "alice", "admin"), entry("k2", "bob", "reader")]);
    let c = keys.authenticate(Some("k2")).unwrap();
    assert_eq!(c.name, "bob");
    assert_eq!(c.role, "reader");
}

#[test]
fn later_registration_of_a_key_wins() {
    let keys = ApiKeys::from_entries(vec![entry("k1", "alice", "admin"), entry("k1", "carol", "writer")]);
    let c = keys.lookup(&"k1".to_string()).unwrap();
    assert_eq!(c.name, "carol");
    assert_eq!(c.role, "writer");
    assert!(keys.lookup(&"k3".to_string()).is_none());
}
