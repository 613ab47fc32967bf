//! Validated request bodies and query strings: what a parse and a
//! validation outcome decide, and the reply a refusal is answered with.
use vstd::prelude::*;
use vstd::string::*;

verus! {

/// A JSON body that parsed and passed its validation rules.
pub struct ValidatedJson<T>(pub T);

/// A query string that parsed and passed its validation rules.
pub struct ValidatedQuery<T>(pub T);

/// Why a body or query string did not parse: the status and text that
/// the framework's own rejection carries.
#[derive(Clone, Debug)]
pub struct Rejection {
    pub status: u16,
    pub body_text: String,
}

/// The validation failures of one field; a failure may carry no message.
#[derive(Clone, Debug)]
pub struct FieldIssues {
    pub field: String,
    pub messages: Vec<Option<String>>,
}

/// What can go wrong with a validated JSON body.
#[derive(Debug)]
pub enum ValidatedJsonError {
    /// The JSON itself is broken.
    JsonError(Rejection),
    /// The JSON is valid but breaks the rules.
    ValidationError(Vec<FieldIssues>),
}

/// What can go wrong with a validated query string.
#[derive(Debug)]
pub enum ValidatedQueryError {
    /// The query string could not be deserialized.
    QueryError(Rejection),
    /// The query string deserialized but broke the rules.
    ValidationError(Vec<FieldIssues>),
}

/// The messages reported for one field.
#[derive(Debug)]
pub struct FieldMessages {
    pub field: String,
    pub messages: Vec<String>,
}

/// The details of a refusal: the parser's text, or the messages per field.
#[derive(Debug)]
pub enum RefusalDetails {
    Text(String),
    Fields(Vec<FieldMessages>),
}

/// The reply a refusal is answered with.
#[derive(Debug)]
pub struct RefusalReport {
    pub status: u16,
    pub error: String,
    pub details: RefusalDetails,
}

/// The messages that are present, in order.
pub open spec fn present_messages(s: Seq<Option<String>>) -> Seq<String>
    decreases s.len(),
{
    if s.len() == 0 {
        Seq::empty()
    } else {
        let rest = present_messages(s.drop_last());
        match s.last() {
            Some(m) => rest.push(m),
            None => rest,
        }
    }
}

/// The per-field messages reported for the validation failures `issues`.
pub open spec fn reports_fields(issues: Seq<FieldIssues>, out: Seq<FieldMessages>) -> bool {
    &&& out.len() == issues.len()
    &&& forall|i: int| 0 <= i < out.len() ==> {
        &&& #[trigger] out[i].field == issues[i].field
        &&& out[i].messages@ == present_messages(issues[i].messages@)
    }
}

/// The messages of one field that are present, in order.
pub fn field_messages(issues: &FieldIssues) -> (r: FieldMessages)
    ensures
        r.field == issues.field,
        r.messages@ == present_messages(issues.messages@),
{
    let mut out: Vec<String> = Vec::new();
    let mut i: usize = 0;
    while i < issues.messages.len()
        invariant
            i <= issues.messages.len(),
            out@ == present_messages(issues.messages@.take(i as int)),
        decreases issues.messages.len() - i,
    {
        proof {
            let t = issues.messages@.take(i as int + 1);
            assert(t.drop_last() =~= issues.messages@.take(i as int));
            assert(t.last() == issues.messages@[i as int]);
        }
        match &issues.messages[i] {
            Some(m) => out.push(m.clone()),
            None => {},
        }
        i = i + 1;
    }
    assert(issues.messages@.take(issues.messages.len() as int) =~= issues.messages@);
    FieldMessages { field: issues.field.clone(), messages: out }
}

/// The messages per field, in the order of the fields.
pub fn all_field_messages(issues: &Vec<FieldIssues>) -> (r: Vec<FieldMessages>)
    ensures
        reports_fields(issues@, r@),
{
    let mut out: Vec<FieldMessages> = Vec::new();
    let mut i: usize = 0;
    while i < issues.len()
        invariant
            i <= issues.len(),
            out.len() == i,
            forall|j: int| 0 <= j < i ==> {
                &&& #[trigger] out@[j].field == issues@[j].field
                &&& out@[j].messages@ == present_messages(issues@[j].messages@)
            },
        decreases issues.len() - i,
    {
        let f = field_messages(&issues[i]);
        out.push(f);
        i = i + 1;
    }
    out
}

impl<T> ValidatedJson<T> {
    /// Accepts a body that parsed and passed validation; otherwise the
    /// parse failure, or else the validation failures.
    pub fn from_outcome(outcome: Result<(T, Result<(), Vec<FieldIssues>>), Rejection>) -> (r: Result<ValidatedJson<T>, ValidatedJsonError>)
        ensures
            match outcome {
                Err(rej) => r matches Err(ValidatedJsonError::JsonError(x)) && x == rej,
                Ok((v, Err(issues))) => r matches Err(ValidatedJsonError::ValidationError(x)) && x == issues,
                Ok((v, Ok(()))) => r matches Ok(ValidatedJson(x)) && x == v,
            },
    {
        match outcome {
            Err(rej) => Err(ValidatedJsonError::JsonError(rej)),
            Ok((value, check)) => match check {
                Err(issues) => Err(ValidatedJsonError::ValidationError(issues)),
                Ok(()) => Ok(ValidatedJson(value)),
            },
        }
    }
}

impl<T> ValidatedQuery<T> {
    /// Accepts a query that parsed and passed validation; otherwise the
    /// parse failure, or else the validation failures.
    pub fn from_outcome(outcome: Result<(T, Result<(), Vec<FieldIssues>>), Rejection>) -> (r: Result<ValidatedQuery<T>, ValidatedQueryError>)
        ensures
            match outcome {
                Err(rej) => r matches Err(ValidatedQueryError::QueryError(x)) && x == rej,
                Ok((v, Err(issues))) => r matches Err(ValidatedQueryError::ValidationError(x)) && x == issues,
                Ok((v, Ok(()))) => r matches Ok(ValidatedQuery(x)) && x == v,
            },
    {
        match outcome {
            Err(rej) => Err(ValidatedQueryError::QueryError(rej)),
            Ok((value, check)) => match check {
                Err(issues) => Err(ValidatedQueryError::ValidationError(issues)),
                Ok(()) => Ok(ValidatedQuery(value)),
            },
        }
    }
}

impl ValidatedJsonError {
    /// A broken body keeps the parser's status and text; a body that breaks
    /// the rules is answered 422 with the messages per field.
    pub fn into_report(self) -> (r: RefusalReport)
        ensures
            match self {
                ValidatedJsonError::JsonError(rej) => {
                    &&& r.status == rej.status
                    &&& r.error@ == "Invalid JSON"@
                    &&& (r.details matches RefusalDetails::Text(t) && t == rej.body_text)
                },
                ValidatedJsonError::ValidationError(issues) => {
                    &&& r.status == 422
                    &&& r.error@ == "Validation failed"@
                    &&& (r.details matches RefusalDetails::Fields(f) && reports_fields(issues@, f@))
                },
            },
    {
        match self {
            ValidatedJsonError::JsonError(rej) => RefusalReport {
                status: rej.status,
                error: String::from_str("Invalid JSON"),
                details: RefusalDetails::Text(rej.body_text),
            },
            ValidatedJsonError::ValidationError(issues) => RefusalReport {
                status: 422,
                error: String::from_str("Validation failed"),
                details: RefusalDetails::Fields(all_field_messages(&issues)),
            },
        }
    }
}

impl ValidatedQueryError {
    /// A query that does not parse keeps the parser's status and text; one
    /// that breaks the rules is answered 422 with the messages per field.
    pub fn into_report(self) -> (r: RefusalReport)
        ensures
            match self {
                ValidatedQueryError::QueryError(rej) => {
                    &&& r.status == rej.status
                    &&& r.error@ == "Invalid query string"@
                    &&& (r.details matches RefusalDetails::Text(t) && t == rej.body_text)
                },
                ValidatedQueryError::ValidationError(issues) => {
                    &&& r.status == 422
                    &&& r.error@ == "Validation failed"@
                    &&& (r.details matches RefusalDetails::Fields(f) && reports_fields(issues@, f@))
                },
            },
    {
        match self {
            ValidatedQueryError::QueryError(rej) => RefusalReport {
                status: rej.status,
                error: String::from_str("Invalid query string"),
                details: RefusalDetails::Text(rej.body_text),
            },
            ValidatedQueryError::ValidationError(issues) => RefusalReport {
                status: 422,
                error: String::from_str("Validation failed"),
                details: RefusalDetails::Fields(all_field_messages(&issues)),
            },
        }
    }
}

} // verus!
