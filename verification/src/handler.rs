//! The request handler's decisions. A request passes the origin guard, then
//! the form validator, then goes to the store; the first stage that fails
//! answers the request and no later stage is entered.
//!
//! The handler touches neither the network nor the database. It is given
//! what the server read from the request and says what to do next: answer,
//! or run an insert. When the insert has run, `store_reply` turns its outcome
//! into the answer.

use crate::form::{validate_form, violation, ContactForm, FormText, ValidationError};
use crate::origin::{check_origin, origin_verdict, HeaderBytes, OriginPolicy, RequestHeaders};
use crate::pattern::{regex_search, EMAIL_PATTERN};
use crate::reply::{Body, Reply, ReplyView, Status};
use crate::store::{insert_statement, insertion, Statement, StatementView};
use vstd::prelude::*;
use vstd::string::StringExecFns;

verus! {

/// What the handler is configured with. It is set up once, at startup, and
/// only read afterwards.
#[derive(Clone, Debug)]
pub struct AppState {
    /// The domain that requests must come from.
    pub allowed_domain: String,
    /// Which headers the origin guard insists on.
    pub origin_policy: OriginPolicy,
    /// The grammar of an email address.
    pub email_pattern: String,
}

impl AppState {
    /// The usual configuration for `allowed_domain`: the guard checks `Host`
    /// and `Referer`, and an email address must match `EMAIL_PATTERN`.
    pub fn new(allowed_domain: String) -> (s: AppState)
        ensures
            s.allowed_domain == allowed_domain,
            s.origin_policy == OriginPolicy::HostAndReferer,
            s.email_pattern@ == EMAIL_PATTERN@,
    {
        AppState {
            allowed_domain,
            origin_policy: OriginPolicy::HostAndReferer,
            email_pattern: String::from_str(EMAIL_PATTERN),
        }
    }
}

/// What the server does next with a request.
#[derive(Clone, Debug, PartialEq, Eq)]
pub enum Step {
    /// Answer, and store nothing.
    Respond(Reply),
    /// Run the statement, then answer with `store_reply`.
    Insert(Statement),
}

/// A step, over sequences of characters.
pub enum StepView {
    Respond(ReplyView),
    Insert(StatementView),
}

impl View for Step {
    type V = StepView;

    open spec fn view(&self) -> StepView {
        match self {
            Step::Respond(r) => StepView::Respond(r@),
            Step::Insert(s) => StepView::Insert(s@),
        }
    }
}

/// The answer to a submission that breaks a rule of the validator: a bad
/// request, with the rule's sentence as a JSON error.
pub open spec fn invalid_answer(v: ValidationError) -> ReplyView {
    ReplyView { status: Status::BadRequest, body: Body::JsonError, text: v.text() }
}

/// The answer once the insert has run: `Created` with a confirmation if it
/// succeeded, else an internal server error that says nothing of the cause.
pub open spec fn stored_answer(stored: bool) -> ReplyView {
    if stored {
        ReplyView {
            status: Status::Created,
            body: Body::JsonMessage,
            text: "Contact form submitted successfully"@,
        }
    } else {
        ReplyView {
            status: Status::InternalServerError,
            body: Body::JsonError,
            text: "Failed to store contact form"@,
        }
    }
}

/// The step that a request leads to, `found` being what the search for the
/// email grammar in the form's address answers. The guard's verdict comes
/// first, then the validator's; a request that passes both is stored as it
/// was sent.
pub open spec fn next_step(
    headers: HeaderBytes,
    form: FormText,
    domain: Seq<char>,
    policy: OriginPolicy,
    found: Option<bool>,
) -> StepView {
    match origin_verdict(headers, domain, policy) {
        Some(why) => StepView::Respond(why.answer()),
        None => match violation(form, found) {
            Some(v) => StepView::Respond(invalid_answer(v)),
            None => StepView::Insert(insertion(form)),
        },
    }
}

/// Handles a submission up to the point where it is stored: says whether to
/// answer at once, and with what, or to run the insert.
pub fn submit_contact(headers: &RequestHeaders, form: &ContactForm, data: &AppState) -> (step:
    Step)
    ensures
        step@ == next_step(
            headers@,
            form@,
            data.allowed_domain@,
            data.origin_policy,
            regex_search(data.email_pattern@, form.email@),
        ),
{
    if let Err(why) = check_origin(headers, data.allowed_domain.as_str(), data.origin_policy) {
        return Step::Respond(why.reply());
    }
    if let Err(error_message) = validate_form(form, data.email_pattern.as_str()) {
        return Step::Respond(
            Reply { status: Status::BadRequest, body: Body::JsonError, text: error_message },
        );
    }
    Step::Insert(insert_statement(form))
}

/// The answer after the insert, from its outcome. The error's detail is for
/// the server's log: nothing of it reaches the client.
pub fn store_reply(outcome: &Result<(), String>) -> (r: Reply)
    ensures
        r@ == stored_answer(outcome is Ok),
{
    match outcome {
        Ok(_) => Reply {
            status: Status::Created,
            body: Body::JsonMessage,
            text: String::from_str("Contact form submitted successfully"),
        },
        Err(_) => Reply {
            status: Status::InternalServerError,
            body: Body::JsonError,
            text: String::from_str("Failed to store contact form"),
        },
    }
}

} // verus!
