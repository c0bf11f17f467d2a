//! The form validator: the ordered rules that a submission has to meet
//! before it is stored.

use crate::pattern::{regex_search, search};
use crate::text::{blank, is_blank};
use vstd::prelude::*;
use vstd::string::StrSliceExecFns;
use vstd::string::StringExecFns;

verus! {

/// Most characters that a name may have.
pub const NAME_MAX: usize = 50;

/// Most characters that an email address may have.
pub const EMAIL_MAX: usize = 50;

/// Most characters that a subject may have.
pub const SUBJECT_MAX: usize = 100;

/// Most characters that a message may have.
pub const MESSAGE_MAX: usize = 500;

/// A submission as the client sent it. Nothing in it is trimmed or otherwise
/// normalised, neither here nor later.
#[derive(Clone, Debug, PartialEq, Eq)]
pub struct ContactForm {
    pub name: String,
    pub email: String,
    pub subject: String,
    pub message: String,
}

/// The four texts of a submission.
pub struct FormText {
    pub name: Seq<char>,
    pub email: Seq<char>,
    pub subject: Seq<char>,
    pub message: Seq<char>,
}

impl View for ContactForm {
    type V = FormText;

    open spec fn view(&self) -> FormText {
        FormText {
            name: self.name@,
            email: self.email@,
            subject: self.subject@,
            message: self.message@,
        }
    }
}

/// The rule that a submission fails, one variant for each rule.
#[derive(Clone, Copy, Debug, PartialEq, Eq, Structural)]
pub enum ValidationError {
    EmptyName,
    EmptyEmail,
    EmptyMessage,
    NameTooLong,
    EmailTooLong,
    SubjectTooLong,
    MessageTooLong,
    InvalidEmail,
}

impl ValidationError {
    /// The sentence that tells the client which rule was broken.
    pub open spec fn text(self) -> Seq<char> {
        match self {
            ValidationError::EmptyName => "Name cannot be empty"@,
            ValidationError::EmptyEmail => "Email cannot be empty"@,
            ValidationError::EmptyMessage => "Message cannot be empty"@,
            ValidationError::NameTooLong => "Name must be 50 characters or less"@,
            ValidationError::EmailTooLong => "Email must be 50 characters or less"@,
            ValidationError::SubjectTooLong => "Subject must be 100 characters or less"@,
            ValidationError::MessageTooLong => "Message must be 500 characters or less"@,
            ValidationError::InvalidEmail => "Invalid email format"@,
        }
    }

    /// The sentence of `text` as a string.
    pub fn message(&self) -> (s: String)
        ensures
            s@ == self.text(),
    {
        match self {
            ValidationError::EmptyName => String::from_str("Name cannot be empty"),
            ValidationError::EmptyEmail => String::from_str("Email cannot be empty"),
            ValidationError::EmptyMessage => String::from_str("Message cannot be empty"),
            ValidationError::NameTooLong => String::from_str("Name must be 50 characters or less"),
            ValidationError::EmailTooLong => String::from_str(
                "Email must be 50 characters or less",
            ),
            ValidationError::SubjectTooLong => String::from_str(
                "Subject must be 100 characters or less",
            ),
            ValidationError::MessageTooLong => String::from_str(
                "Message must be 500 characters or less",
            ),
            ValidationError::InvalidEmail => String::from_str("Invalid email format"),
        }
    }
}

/// The first rule on presence and length that `f` breaks, if it breaks one.
/// Name, email and message must not be blank; then name, email, subject and
/// message must not be longer than their limits, counted in characters. The
/// subject may be blank.
pub open spec fn field_violation(f: FormText) -> Option<ValidationError> {
    if is_blank(f.name) {
        Some(ValidationError::EmptyName)
    } else if is_blank(f.email) {
        Some(ValidationError::EmptyEmail)
    } else if is_blank(f.message) {
        Some(ValidationError::EmptyMessage)
    } else if f.name.len() > NAME_MAX {
        Some(ValidationError::NameTooLong)
    } else if f.email.len() > EMAIL_MAX {
        Some(ValidationError::EmailTooLong)
    } else if f.subject.len() > SUBJECT_MAX {
        Some(ValidationError::SubjectTooLong)
    } else if f.message.len() > MESSAGE_MAX {
        Some(ValidationError::MessageTooLong)
    } else {
        None
    }
}

/// The rule on the email's form, given what the search for the email grammar
/// in the address answered: only a match passes.
pub open spec fn email_violation(found: Option<bool>) -> Option<ValidationError> {
    if found == Some(true) {
        None
    } else {
        Some(ValidationError::InvalidEmail)
    }
}

/// The first rule that `f` breaks, the rule on the email's form coming last.
pub open spec fn violation(f: FormText, found: Option<bool>) -> Option<ValidationError> {
    match field_violation(f) {
        Some(v) => Some(v),
        None => email_violation(found),
    }
}

/// Checks the rules on presence and length, in their order.
pub fn check_fields(form: &ContactForm) -> (r: Option<ValidationError>)
    ensures
        r == field_violation(form@),
{
    if blank(form.name.as_str()) {
        Some(ValidationError::EmptyName)
    } else if blank(form.email.as_str()) {
        Some(ValidationError::EmptyEmail)
    } else if blank(form.message.as_str()) {
        Some(ValidationError::EmptyMessage)
    } else if form.name.as_str().unicode_len() > NAME_MAX {
        Some(ValidationError::NameTooLong)
    } else if form.email.as_str().unicode_len() > EMAIL_MAX {
        Some(ValidationError::EmailTooLong)
    } else if form.subject.as_str().unicode_len() > SUBJECT_MAX {
        Some(ValidationError::SubjectTooLong)
    } else if form.message.as_str().unicode_len() > MESSAGE_MAX {
        Some(ValidationError::MessageTooLong)
    } else {
        None
    }
}

/// Turns the answer of the search for the email grammar into a verdict.
pub fn email_verdict(found: Option<bool>) -> (r: Option<ValidationError>)
    ensures
        r == email_violation(found),
{
    match found {
        Some(true) => None,
        _ => Some(ValidationError::InvalidEmail),
    }
}

/// The first rule that `form` breaks, for a caller that has already searched
/// the email address for the email grammar and passes the answer in `found`.
pub fn first_violation(form: &ContactForm, found: Option<bool>) -> (r: Option<ValidationError>)
    ensures
        r == violation(form@, found),
{
    match check_fields(form) {
        Some(v) => Some(v),
        None => email_verdict(found),
    }
}

/// Validates `form`, with `email_pattern` as the grammar of an email address.
/// The rules are tried in order and the first one broken decides: the error
/// is its sentence. The grammar is searched for only when every other rule
/// holds; a pattern that does not compile matches no address.
pub fn validate_form(form: &ContactForm, email_pattern: &str) -> (r: Result<(), String>)
    ensures
        match violation(form@, regex_search(email_pattern@, form.email@)) {
            None => r is Ok,
            Some(v) => r matches Err(msg) && msg@ == v.text(),
        },
{
    match check_fields(form) {
        Some(v) => Err(v.message()),
        None => {
            let found = search(email_pattern, form.email.as_str());
            match email_verdict(found) {
                Some(v) => Err(v.message()),
                None => Ok(()),
            }
        },
    }
}

} // verus!
