use rustflow_server::extractors::{
    FieldIssues, RefusalDetails, Rejection, ValidatedJson, ValidatedJsonError, ValidatedQuery,
    ValidatedQueryError,
};
use rustflow_server::model::{AppConfig, AuthenticatedClient, Priority, Task, TaskStatus};
use rustflow_server::service::{
    caller_name, count_request, enrich, health_report, limit_reply, overload_reply,
    readiness_status, ExternalUser,
};

fn issues() -> Vec<FieldIssues> {
    vec![FieldIssues {
        field: "title".to_string(),
        messages: vec![Some("Title must be 1-100 chars".to_string()), None, Some("second".to_string())],
    }]
}

#[test]
fn json_parse_failure_comes_first() {
    let r = ValidatedJson::<u32>::from_outcome(Err(Rejection { status: 400, body_text: "bad".to_string() }));
    match r {
        Err(ValidatedJsonError::JsonError(rej)) => assert_eq!(rej.status, 400),
        _ => panic!("expected a JSON error"),
    }
}

#[test]
fn json_validation_failure_and_success() {
    match ValidatedJson::<u32>::from_outcome(Ok((7, Err(issues())))) {
        Err(ValidatedJsonError::ValidationError(v)) => assert_eq!(v[0].field, "title"),
        _ => panic!("expected a validation error"),
    }
    match ValidatedJson::<u32>::from_outcome(Ok((7, Ok(())))) {
        Ok(ValidatedJson(v)) => assert_eq!(v, 7),
        _ => panic!("expected success"),
    }
}

#[test]
fn query_outcomes() {
    match ValidatedQuery::<u32>::from_outcome(Err(Rejection { status: 400, body_text: "q".to_string() })) {
        Err(ValidatedQueryError::QueryError(rej)) => assert_eq!(rej.body_text, "q"),
        _ => panic!("expected a query error"),
    }
    match ValidatedQuery::<u32>::from_outcome(Ok((3, Ok(())))) {
        Ok(ValidatedQuery(v)) => assert_eq!(v, 3),
        _ => panic!("expected success"),
    }
}

#[test]
fn json_refusal_reports() {
    let r = ValidatedJsonError::JsonError(Rejection { status: 415, body_text: "no json".to_string() }).into_report();
    assert_eq!(r.status, 415);
    assert_eq!(r.error, "Invalid JSON");
    assert!(matches!(r.details, RefusalDetails::Text(ref t) if t == "no json"));
    let r = ValidatedJsonError::ValidationError(issues()).into_report();
    assert_eq!(r.status, 422);
    assert_eq!(r.error, "Validation failed");
    match r.details {
        RefusalDetails::Fields(f) => {
            assert_eq!(f.len(), 1);
            assert_eq!(f[0].field, "title");
            assert_eq!(f[0].messages, vec!["Title must be 1-100 chars".to_string(), "second".to_string()]);
        }
        _ => panic!("expected field messages"),
    }
}

#[test]
fn query_refusal_reports() {
    let r = ValidatedQueryError::QueryError(Rejection { status: 400, body_text: "x".to_string() }).into_report();
    assert_eq!(r.status, 400);
    assert_eq!(r.error, "Invalid query string");
    let r = ValidatedQueryError::ValidationError(vec![]).into_report();
    assert_eq!(r.status, 422);
    assert!(matches!(r.details, RefusalDetails::Fields(ref f) if f.is_empty()));
}

#[test]
fn health_names_the_caller() {
    let config = AppConfig { app_name: "RustFlow".to_string(), version: "0.1.0".to_string(), cors_origins: vec![] };
    let anon = health_report(&config, &None);
    assert_eq!(anon.service, "RustFlow");
    assert_eq!(anon.version, "0.1.0");
    assert_eq!(anon.status, "ok");
    assert_eq!(anon.caller, "anonymous");
    let client = Some(AuthenticatedClient { name: "alice".to_string(), role: "admin".to_string() });
    assert_eq!(caller_name(&client), "alice");
}

#[test]
fn readiness_follows_shutdown() {
    assert_eq!(readiness_status(false), 200);
    assert_eq!(readiness_status(true), 503);
}

#[test]
fn shed_requests_become_too_many_requests() {
    let r = limit_reply(503, 10);
    assert_eq!(r.status, 429);
    assert_eq!(r.retry_after.as_deref(), Some("10"));
    let r = limit_reply(200, 10);
    assert_eq!(r.status, 200);
    assert!(r.retry_after.is_none());
    let r = limit_reply(404, 0);
    assert_eq!(r.status, 404);
    assert_eq!(limit_reply(503, 0).retry_after.as_deref(), Some("0"));
}

#[test]
fn overload_reply_carries_the_error() {
    let (s, body) = overload_reply("buffer full");
    assert_eq!(s, 503);
    assert_eq!(body, "Service overloaded: buffer full");
}

#[test]
fn request_counter_logs_every_hundredth() {
    assert_eq!(count_request(0), (1, false));
    assert_eq!(count_request(99), (100, true));
    assert_eq!(count_request(199), (200, true));
    assert_eq!(count_request(100), (101, false));
}

#[test]
fn enrichment_names_priority_and_status() {
    let task = Task {
        id: 2,
        title: "Add Axum".to_string(),
        description: None,
        priority: Priority::High,
        status: TaskStatus::InProgress,
    };
    let user = ExternalUser { id: 1, name: "Leanne".to_string(), email: "l@x".to_string(), username: "Bret".to_string() };
    let e = enrich(2, task, user);
    assert_eq!(e.id, 2);
    assert_eq!(e.priority, "High");
    assert_eq!(e.status, "InProgress");
    assert_eq!(e.assign_to.username, "Bret");
    assert_eq!(Priority::Low.debug_name(), "Low");
    assert_eq!(TaskStatus::Pending.debug_name(), "Pending");
}
