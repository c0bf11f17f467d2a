//! What holds of the guard, the validator and the handler on every input.
//! Each law is stated over the functions that the contracts of the
//! executable code are stated over.

use crate::form::{
    email_violation, field_violation, violation, FormText, ValidationError, EMAIL_MAX,
    MESSAGE_MAX, NAME_MAX, SUBJECT_MAX,
};
use crate::handler::{invalid_answer, next_step, StepView};
use crate::origin::{
    foreign, is_text, names_domain, origin_verdict, unreadable, HeaderBytes, OriginPolicy,
    Rejection,
};
use crate::store::insertion;
use crate::text::{contains, is_blank, occurs_at};
use vstd::prelude::*;

verus! {

/// Containment is plain: a text contains `needle` exactly when it is made of
/// some text, then `needle`, then some text. Either of the two may be empty,
/// and nothing is asked of them.
pub proof fn contained_means_inside(hay: Seq<char>, needle: Seq<char>)
    ensures
        contains(hay, needle) <==> exists|before: Seq<char>, after: Seq<char>|
            hay == #[trigger] (before + needle + after),
{
    if contains(hay, needle) {
        let i = choose|i: int| occurs_at(hay, needle, i);
        let before = hay.subrange(0, i);
        let after = hay.subrange(i + needle.len(), hay.len() as int);
        assert(hay =~= before + needle + after);
    }
    if exists|before: Seq<char>, after: Seq<char>| hay == #[trigger] (before + needle + after) {
        let (before, after) = choose|before: Seq<char>, after: Seq<char>|
            hay == #[trigger] (before + needle + after);
        let i = before.len() as int;
        assert(hay.subrange(i, i + needle.len()) =~= needle);
        assert(occurs_at(hay, needle, i));
    }
}

/// A submission whose name, email or message is blank is turned away with
/// the sentence of the first of the three that is blank, whatever its other
/// fields hold and whatever the search for the email grammar answers.
pub proof fn blank_field_is_rejected(form: FormText, found: Option<bool>)
    requires
        is_blank(form.name) || is_blank(form.email) || is_blank(form.message),
    ensures
        is_blank(form.name) ==> violation(form, found) == Some(ValidationError::EmptyName),
        !is_blank(form.name) && is_blank(form.email) ==> violation(form, found) == Some(
            ValidationError::EmptyEmail,
        ),
        !is_blank(form.name) && !is_blank(form.email) ==> violation(form, found) == Some(
            ValidationError::EmptyMessage,
        ),
{
}

/// A submission that breaks a rule of the validator is never stored: the
/// handler answers it, and where the guard lets the request pass the answer
/// is the bad request that carries the rule's sentence.
pub proof fn rejected_form_is_not_stored(
    headers: HeaderBytes,
    form: FormText,
    domain: Seq<char>,
    policy: OriginPolicy,
    found: Option<bool>,
)
    requires
        violation(form, found) is Some,
    ensures
        next_step(headers, form, domain, policy, found) is Respond,
        origin_verdict(headers, domain, policy) is None ==> next_step(
            headers,
            form,
            domain,
            policy,
            found,
        ) == StepView::Respond(invalid_answer(violation(form, found).unwrap())),
{
}

/// Where name, email and message are not blank, a field that is longer than
/// its limit is named by the sentence of the first such field, in the order
/// name, email, subject, message; lengths are counted in characters.
pub proof fn long_field_is_rejected(form: FormText, found: Option<bool>)
    requires
        !is_blank(form.name),
        !is_blank(form.email),
        !is_blank(form.message),
    ensures
        form.name.len() > NAME_MAX ==> violation(form, found) == Some(
            ValidationError::NameTooLong,
        ),
        form.name.len() <= NAME_MAX && form.email.len() > EMAIL_MAX ==> violation(form, found)
            == Some(ValidationError::EmailTooLong),
        form.name.len() <= NAME_MAX && form.email.len() <= EMAIL_MAX && form.subject.len()
            > SUBJECT_MAX ==> violation(form, found) == Some(ValidationError::SubjectTooLong),
        form.name.len() <= NAME_MAX && form.email.len() <= EMAIL_MAX && form.subject.len()
            <= SUBJECT_MAX && form.message.len() > MESSAGE_MAX ==> violation(form, found)
            == Some(ValidationError::MessageTooLong),
{
}

/// A submission passes the rules on presence and length exactly when name,
/// email and message are not blank and no field is longer than its limit: a
/// field of exactly the limit's length is accepted, and so is a blank
/// subject. Such a submission is accepted if its email matches the grammar.
pub proof fn fields_within_limits_pass(form: FormText, found: Option<bool>)
    ensures
        field_violation(form) is None <==> {
            &&& !is_blank(form.name)
            &&& !is_blank(form.email)
            &&& !is_blank(form.message)
            &&& form.name.len() <= NAME_MAX
            &&& form.email.len() <= EMAIL_MAX
            &&& form.subject.len() <= SUBJECT_MAX
            &&& form.message.len() <= MESSAGE_MAX
        },
        field_violation(form) is None ==> violation(form, found) == email_violation(found),
        field_violation(form) is None && found == Some(true) ==> violation(form, found) is None,
{
}

/// Where the rules on presence and length hold, an email in which the
/// grammar finds no match is turned away as an invalid email, and so is
/// every email if the grammar's pattern does not compile.
pub proof fn unmatched_email_is_rejected(form: FormText, found: Option<bool>)
    requires
        field_violation(form) is None,
        found != Some(true),
    ensures
        violation(form, found) == Some(ValidationError::InvalidEmail),
{
}

/// Where every header that is looked at can be read, and `Origin` is there
/// if it is required, a request whose `Host` header is missing or does not
/// name the allowed domain is denied.
pub proof fn foreign_host_is_denied(headers: HeaderBytes, domain: Seq<char>, policy: OriginPolicy)
    requires
        !unreadable(headers.host),
        !unreadable(headers.referer),
        policy == OriginPolicy::RequireOrigin ==> headers.origin is Some && !unreadable(
            headers.origin,
        ),
        !(headers.host matches Some(raw) && names_domain(raw, domain)),
    ensures
        origin_verdict(headers, domain, policy) == Some(Rejection::Denied),
{
}

/// The `Referer` header is optional: under the policy of `Host` and
/// `Referer`, a request without it passes if its `Host` header is text that
/// names the allowed domain. So does a request whose `Referer` is empty.
pub proof fn referer_is_optional(headers: HeaderBytes, domain: Seq<char>)
    requires
        headers.host matches Some(raw) && is_text(raw) && names_domain(raw, domain),
        headers.referer matches Some(raw) ==> raw.len() == 0,
    ensures
        origin_verdict(headers, domain, OriginPolicy::HostAndReferer) is None,
{
}

/// Under the policy of `Host` and `Referer`, a request with an acceptable
/// `Host` and a `Referer` that is text, not empty, and does not name the
/// allowed domain is denied.
pub proof fn foreign_referer_is_denied(headers: HeaderBytes, domain: Seq<char>)
    requires
        headers.host matches Some(raw) && is_text(raw) && names_domain(raw, domain),
        headers.referer matches Some(raw) && is_text(raw),
        foreign(headers.referer, domain),
    ensures
        origin_verdict(headers, domain, OriginPolicy::HostAndReferer) == Some(Rejection::Denied),
{
}

/// The guard comes first: a request that it turns away is answered with its
/// rejection, whatever the form holds, and nothing is stored.
pub proof fn guard_precedes_validation(
    headers: HeaderBytes,
    form: FormText,
    domain: Seq<char>,
    policy: OriginPolicy,
    found: Option<bool>,
)
    requires
        origin_verdict(headers, domain, policy) is Some,
    ensures
        next_step(headers, form, domain, policy, found) == StepView::Respond(
            origin_verdict(headers, domain, policy).unwrap().answer(),
        ),
{
}

/// A submission reaches the store exactly when the guard lets the request
/// pass and the validator finds no fault. What is stored then is the
/// submission as it was sent, and it meets every rule of the validator.
pub proof fn only_valid_forms_are_stored(
    headers: HeaderBytes,
    form: FormText,
    domain: Seq<char>,
    policy: OriginPolicy,
    found: Option<bool>,
)
    ensures
        next_step(headers, form, domain, policy, found) is Insert <==> origin_verdict(
            headers,
            domain,
            policy,
        ) is None && violation(form, found) is None,
        next_step(headers, form, domain, policy, found) is Insert ==> {
            &&& next_step(headers, form, domain, policy, found) == StepView::Insert(
                insertion(form),
            )
            &&& insertion(form).params == seq![form.name, form.email, form.subject, form.message]
            &&& !is_blank(form.name)
            &&& !is_blank(form.email)
            &&& !is_blank(form.message)
            &&& form.name.len() <= NAME_MAX
            &&& form.email.len() <= EMAIL_MAX
            &&& form.subject.len() <= SUBJECT_MAX
            &&& form.message.len() <= MESSAGE_MAX
            &&& found == Some(true)
        },
{
}

} // verus!
