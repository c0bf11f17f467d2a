use contact_form::form::{
    check_fields, email_verdict, first_violation, validate_form, ContactForm, ValidationError,
};
use contact_form::pattern::EMAIL_PATTERN;

fn form(name: &str, email: &str, subject: &str, message: &str) -> ContactForm {
    ContactForm {
        name: name.to_string(),
        email: email.to_string(),
        subject: subject.to_string(),
        message: message.to_string(),
    }
}

fn valid() -> ContactForm {
    form("Ann", "ann@example.com", "Hi", "Hello")
}

fn with_email(email: &str) -> ContactForm {
    form("Ann", email, "Hi", "Hello")
}

fn err(text: &str) -> Result<(), String> {
    Err(text.to_string())
}

#[test]
fn accepts_a_well_formed_submission() {
    assert_eq!(validate_form(&valid(), EMAIL_PATTERN), Ok(()));
}

#[test]
fn rejects_blank_name() {
    for name in ["", " ", "   ", "\t", "\n", " \t\r\n ", "\u{a0}", "\u{2003}\u{3000}"] {
        let f = form(name, "ann@example.com", "Hi", "Hello");
        assert_eq!(validate_form(&f, EMAIL_PATTERN), err("Name cannot be empty"));
        assert_eq!(check_fields(&f), Some(ValidationError::EmptyName));
    }
}

#[test]
fn rejects_blank_email() {
    for email in ["", " ", "\t\t", "\u{2028}"] {
        let f = form("Ann", email, "Hi", "Hello");
        assert_eq!(validate_form(&f, EMAIL_PATTERN), err("Email cannot be empty"));
        assert_eq!(check_fields(&f), Some(ValidationError::EmptyEmail));
    }
}

#[test]
fn rejects_blank_message() {
    for message in ["", " ", "\n\n", "\u{85}"] {
        let f = form("Ann", "ann@example.com", "Hi", message);
        assert_eq!(validate_form(&f, EMAIL_PATTERN), err("Message cannot be empty"));
        assert_eq!(check_fields(&f), Some(ValidationError::EmptyMessage));
    }
}

#[test]
fn accepts_blank_subject() {
    assert_eq!(validate_form(&form("Ann", "ann@example.com", "", "Hello"), EMAIL_PATTERN), Ok(()));
    assert_eq!(validate_form(&form("Ann", "ann@example.com", "  ", "Hello"), EMAIL_PATTERN), Ok(()));
}

#[test]
fn text_around_white_space_is_not_blank() {
    assert_eq!(validate_form(&form("  Ann  ", "ann@example.com", "Hi", " Hello\n"), EMAIL_PATTERN), Ok(()));
    // A zero-width space is no white space.
    assert_eq!(check_fields(&form("\u{200b}", "ann@example.com", "Hi", "Hello")), None);
}

#[test]
fn first_blank_field_decides() {
    assert_eq!(validate_form(&form("", "", "", ""), EMAIL_PATTERN), err("Name cannot be empty"));
    assert_eq!(validate_form(&form("Ann", " ", "", " "), EMAIL_PATTERN), err("Email cannot be empty"));
    assert_eq!(validate_form(&form("Ann", "x", "", " "), EMAIL_PATTERN), err("Message cannot be empty"));
}

#[test]
fn blank_comes_before_length_and_format() {
    let long = "a".repeat(600);
    assert_eq!(validate_form(&form(&long, "not an email", &long, " "), EMAIL_PATTERN), err("Message cannot be empty"));
    assert_eq!(validate_form(&form(&" ".repeat(51), "ann@example.com", "Hi", "Hello"), EMAIL_PATTERN), err("Name cannot be empty"));
}

#[test]
fn name_of_50_passes_and_51_fails() {
    let f = form(&"n".repeat(50), "ann@example.com", "Hi", "Hello");
    assert_eq!(validate_form(&f, EMAIL_PATTERN), Ok(()));
    let f = form(&"n".repeat(51), "ann@example.com", "Hi", "Hello");
    assert_eq!(validate_form(&f, EMAIL_PATTERN), err("Name must be 50 characters or less"));
    assert_eq!(check_fields(&f), Some(ValidationError::NameTooLong));
}

#[test]
fn email_of_50_passes_and_51_fails() {
    let at_limit = format!("{}@example.com", "a".repeat(38));
    assert_eq!(at_limit.chars().count(), 50);
    assert_eq!(validate_form(&with_email(&at_limit), EMAIL_PATTERN), Ok(()));
    let over = format!("{}@example.com", "a".repeat(39));
    assert_eq!(over.chars().count(), 51);
    assert_eq!(validate_form(&with_email(&over), EMAIL_PATTERN), err("Email must be 50 characters or less"));
    assert_eq!(check_fields(&with_email(&over)), Some(ValidationError::EmailTooLong));
}

#[test]
fn subject_of_100_passes_and_101_fails() {
    let f = form("Ann", "ann@example.com", &"s".repeat(100), "Hello");
    assert_eq!(validate_form(&f, EMAIL_PATTERN), Ok(()));
    let f = form("Ann", "ann@example.com", &"s".repeat(101), "Hello");
    assert_eq!(validate_form(&f, EMAIL_PATTERN), err("Subject must be 100 characters or less"));
    assert_eq!(check_fields(&f), Some(ValidationError::SubjectTooLong));
}

#[test]
fn message_of_500_passes_and_501_fails() {
    let f = form("Ann", "ann@example.com", "Hi", &"m".repeat(500));
    assert_eq!(validate_form(&f, EMAIL_PATTERN), Ok(()));
    let f = form("Ann", "ann@example.com", "Hi", &"m".repeat(501));
    assert_eq!(validate_form(&f, EMAIL_PATTERN), err("Message must be 500 characters or less"));
    assert_eq!(check_fields(&f), Some(ValidationError::MessageTooLong));
}

#[test]
fn lengths_are_counted_in_characters_not_bytes() {
    // 50 characters of two bytes each.
    let name = "é".repeat(50);
    assert_eq!(name.len(), 100);
    assert_eq!(validate_form(&form(&name, "ann@example.com", "Hi", "Hello"), EMAIL_PATTERN), Ok(()));
    let name = "é".repeat(51);
    assert_eq!(validate_form(&form(&name, "ann@example.com", "Hi", "Hello"), EMAIL_PATTERN), err("Name must be 50 characters or less"));
    // 500 characters of four bytes each.
    let message = "😀".repeat(500);
    assert_eq!(message.len(), 2000);
    assert_eq!(validate_form(&form("Ann", "ann@example.com", "Hi", &message), EMAIL_PATTERN), Ok(()));
    let message = "😀".repeat(501);
    assert_eq!(validate_form(&form("Ann", "ann@example.com", "Hi", &message), EMAIL_PATTERN), err("Message must be 500 characters or less"));
    let subject = "日".repeat(100);
    assert_eq!(validate_form(&form("Ann", "ann@example.com", &subject, "Hello"), EMAIL_PATTERN), Ok(()));
    let subject = "日".repeat(101);
    assert_eq!(validate_form(&form("Ann", "ann@example.com", &subject, "Hello"), EMAIL_PATTERN), err("Subject must be 100 characters or less"));
}

#[test]
fn first_long_field_decides() {
    let long = "a".repeat(600);
    assert_eq!(validate_form(&form(&long, &long, &long, &long), EMAIL_PATTERN), err("Name must be 50 characters or less"));
    assert_eq!(validate_form(&form("Ann", &long, &long, &long), EMAIL_PATTERN), err("Email must be 50 characters or less"));
    assert_eq!(validate_form(&form("Ann", "x", &long, &long), EMAIL_PATTERN), err("Subject must be 100 characters or less"));
    assert_eq!(validate_form(&form("Ann", "x", "", &long), EMAIL_PATTERN), err("Message must be 500 characters or less"));
}

#[test]
fn rejects_malformed_emails() {
    for email in [
        "foo@bar",
        "foo@.com",
        "@bar.com",
        "foo",
        "foo@",
        "foo bar@example.com",
        "foo@example.c",
        "foo@example.toolongtld",
        "foo..bar@example.com",
        ".foo@example.com",
        "foo.@example.com",
        "foo@example.com.",
        "foo@example.co.u",
        "foo@@example.com",
        "foo@example.com\n",
        " foo@example.com",
        "foo@example.c0m",
    ] {
        assert_eq!(
            validate_form(&with_email(email), EMAIL_PATTERN),
            err("Invalid email format"),
            "{email:?}"
        );
    }
}

#[test]
fn accepts_well_formed_emails() {
    for email in [
        "user.name@sub.domain.co.uk",
        "ann@example.com",
        "a@b.io",
        "first-last@my-host.example.museum",
        "under_score@ex_ample.org",
        "digits123@456.net",
        "x@y.co.uk",
    ] {
        assert_eq!(validate_form(&with_email(email), EMAIL_PATTERN), Ok(()), "{email:?}");
    }
}

#[test]
fn country_code_is_two_letters_after_the_top_level() {
    assert_eq!(validate_form(&with_email("foo@example.co.uk"), EMAIL_PATTERN), Ok(()));
    // Read as the domain `example.co` under the top level `ukx`.
    assert_eq!(validate_form(&with_email("foo@example.co.ukx"), EMAIL_PATTERN), Ok(()));
    assert_eq!(validate_form(&with_email("foo@example.toolong.uk"), EMAIL_PATTERN), Ok(()));
    assert_eq!(validate_form(&with_email("foo@example.toolong.ukx"), EMAIL_PATTERN), Ok(()));
    assert_eq!(
        validate_form(&with_email("foo@example.co.toolongtld"), EMAIL_PATTERN),
        err("Invalid email format")
    );
}

#[test]
fn email_grammar_ignores_letter_case() {
    assert_eq!(validate_form(&with_email("Ann@Example.COM"), EMAIL_PATTERN), Ok(()));
    assert_eq!(validate_form(&with_email("ANN@EXAMPLE.CO.UK"), EMAIL_PATTERN), Ok(()));
}

#[test]
fn long_last_label_is_accepted() {
    // An address of at most 50 characters cannot reach the bound on the
    // label, so a long label within the bound on the address is tried.
    let email = format!("a@{}.io", "b".repeat(44));
    assert_eq!(email.chars().count(), 49);
    assert_eq!(validate_form(&with_email(&email), EMAIL_PATTERN), Ok(()));
}

#[test]
fn the_answer_depends_on_the_pattern() {
    assert_eq!(validate_form(&with_email("ann@example.com"), "^[0-9]+$"), err("Invalid email format"));
    assert_eq!(validate_form(&with_email("12345"), "^[0-9]+$"), Ok(()));
    // A match anywhere in the address counts.
    assert_eq!(validate_form(&with_email("xx12345xx"), "[0-9]+"), Ok(()));
}

#[test]
fn a_pattern_that_does_not_compile_matches_nothing() {
    assert_eq!(validate_form(&with_email("ann@example.com"), "("), err("Invalid email format"));
    // The other rules still come first.
    assert_eq!(validate_form(&form("", "ann@example.com", "Hi", "Hello"), "("), err("Name cannot be empty"));
}

#[test]
fn first_violation_takes_the_search_result() {
    assert_eq!(first_violation(&valid(), Some(true)), None);
    assert_eq!(first_violation(&valid(), Some(false)), Some(ValidationError::InvalidEmail));
    assert_eq!(first_violation(&valid(), None), Some(ValidationError::InvalidEmail));
    let f = form("Ann", "ann@example.com", "Hi", " ");
    assert_eq!(first_violation(&f, Some(true)), Some(ValidationError::EmptyMessage));
    assert_eq!(first_violation(&f, Some(false)), Some(ValidationError::EmptyMessage));
}

#[test]
fn email_verdict_passes_only_a_match() {
    assert_eq!(email_verdict(Some(true)), None);
    assert_eq!(email_verdict(Some(false)), Some(ValidationError::InvalidEmail));
    assert_eq!(email_verdict(None), Some(ValidationError::InvalidEmail));
}

#[test]
fn each_error_has_its_sentence() {
    assert_eq!(ValidationError::EmptyName.message(), "Name cannot be empty");
    assert_eq!(ValidationError::EmptyEmail.message(), "Email cannot be empty");
    assert_eq!(ValidationError::EmptyMessage.message(), "Message cannot be empty");
    assert_eq!(ValidationError::NameTooLong.message(), "Name must be 50 characters or less");
    assert_eq!(ValidationError::EmailTooLong.message(), "Email must be 50 characters or less");
    assert_eq!(ValidationError::SubjectTooLong.message(), "Subject must be 100 characters or less");
    assert_eq!(ValidationError::MessageTooLong.message(), "Message must be 500 characters or less");
    assert_eq!(ValidationError::InvalidEmail.message(), "Invalid email format");
}

#[test]
fn validation_leaves_the_form_as_it_was() {
    let f = form("  Ann ", "ann@example.com", " ", " Hello ");
    let before = f.clone();
    assert_eq!(validate_form(&f, EMAIL_PATTERN), Ok(()));
    assert_eq!(f, before);
}
