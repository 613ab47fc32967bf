//! The decisions of the health endpoints, the middleware stack and the
//! enrichment endpoint.
use vstd::prelude::*;
use vstd::string::*;
use crate::model::{priority_name, status_name, AppConfig, AuthenticatedClient, Task};
use crate::text::decimal;

verus! {

/// The body of the health endpoint.
#[derive(Debug)]
pub struct HealthReport {
    pub service: String,
    pub version: String,
    pub status: String,
    pub caller: String,
}

/// The name of the caller: the authenticated client's, or "anonymous".
pub fn caller_name(auth: &Option<AuthenticatedClient>) -> (s: String)
    ensures
        match auth {
            Some(c) => s == c.name,
            None => s@ == "anonymous"@,
        },
{
    match auth {
        Some(c) => c.name.clone(),
        None => String::from_str("anonymous"),
    }
}

/// The health report: the service's name and version, "ok", and who asked.
pub fn health_report(config: &AppConfig, auth: &Option<AuthenticatedClient>) -> (r: HealthReport)
    ensures
        r.service == config.app_name,
        r.version == config.version,
        r.status@ == "ok"@,
        match auth {
            Some(c) => r.caller == c.name,
            None => r.caller@ == "anonymous"@,
        },
{
    HealthReport {
        service: config.app_name.clone(),
        version: config.version.clone(),
        status: String::from_str("ok"),
        caller: caller_name(auth),
    }
}

/// The readiness status: 503 once shutdown was requested, else 200.
pub fn readiness_status(shutdown_requested: bool) -> (s: u16)
    ensures
        s == (if shutdown_requested { 503u16 } else { 200u16 }),
{
    if shutdown_requested {
        503
    } else {
        200
    }
}

/// What the rate limiter makes of a reply: its status, and the
/// `Retry-After` value it adds, if any.
#[derive(Debug)]
pub struct LimitedReply {
    pub status: u16,
    pub retry_after: Option<String>,
}

/// Renders a number of seconds in decimal.
pub fn seconds_text(secs: u64) -> (s: String)
    ensures
        s@ == decimal(secs as nat),
{
    crate::text::u64_to_decimal(secs)
}

/// A shed request (503) becomes 429 with `Retry-After` set to the length
/// of the window in seconds; any other reply passes unchanged.
pub fn limit_reply(status: u16, window_secs: u64) -> (r: LimitedReply)
    ensures
        status == 503 ==> r.status == 429 && (r.retry_after matches Some(v) && v@ == decimal(window_secs as nat)),
        status != 503 ==> r.status == status && r.retry_after is None,
{
    if status == 503 {
        LimitedReply { status: 429, retry_after: Some(seconds_text(window_secs)) }
    } else {
        LimitedReply { status, retry_after: None }
    }
}

/// The reply to a request that the overloaded service could not take: 503
/// and the error text after "Service overloaded: ".
pub fn overload_reply(error_text: &str) -> (r: (u16, String))
    ensures
        r.0 == 503,
        r.1@ == "Service overloaded: "@ + error_text@,
{
    (503, String::from_str("Service overloaded: ").concat(error_text))
}

/// Counting one more request after `previous`: the new count, and whether
/// it is a multiple of 100, at which the count is logged.
pub fn count_request(previous: u64) -> (r: (u64, bool))
    requires
        previous < u64::MAX,
    ensures
        r.0 == previous + 1,
        r.1 == ((previous + 1) % 100 == 0),
{
    let new = previous + 1;
    (new, new % 100 == 0)
}

/// A user of the external directory service.
#[derive(Clone, Debug)]
pub struct ExternalUser {
    pub id: u64,
    pub name: String,
    pub email: String,
    pub username: String,
}

/// A task together with the user it is assigned to.
#[derive(Debug)]
pub struct EnrichedTask {
    pub id: u64,
    pub title: String,
    pub description: Option<String>,
    pub priority: String,
    pub status: String,
    pub assign_to: ExternalUser,
}

/// Combines a task with the user fetched for it; priority and status are
/// given by their variant names.
pub fn enrich(task_id: u64, task: Task, user: ExternalUser) -> (r: EnrichedTask)
    ensures
        r.id == task_id,
        r.title == task.title,
        r.description == task.description,
        r.priority@ == priority_name(task.priority),
        r.status@ == status_name(task.status),
        r.assign_to == user,
{
    let priority = String::from_str(task.priority.debug_name());
    let status = String::from_str(task.status.debug_name());
    EnrichedTask {
        id: task_id,
        title: task.title,
        description: task.description,
        priority,
        status,
        assign_to: user,
    }
}

} // verus!
