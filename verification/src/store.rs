//! The contact store's side of the library: the two statements that are run
//! against the database, and the values that are bound to them.
//!
//! The library runs nothing itself. The server runs the schema statement
//! once at startup, and the insert statement of each accepted submission,
//! one at a time.

use crate::form::{ContactForm, FormText};
use vstd::prelude::*;
use vstd::string::StringExecFns;

verus! {

/// Creates the table of submissions unless it is there already. The
/// database numbers the rows in `id` and stamps each with the time of its
/// insertion in `created_at`.
pub const SCHEMA_SQL: &'static str =
    "CREATE TABLE IF NOT EXISTS contacts (id INTEGER PRIMARY KEY, name TEXT NOT NULL, email TEXT NOT NULL, subject TEXT NOT NULL, message TEXT NOT NULL, created_at TIMESTAMP DEFAULT CURRENT_TIMESTAMP)";

/// Appends one submission. The four placeholders stand for name, email,
/// subject and message, in this order.
pub const INSERT_SQL: &'static str =
    "INSERT INTO contacts (name, email, subject, message) VALUES (?1, ?2, ?3, ?4)";

/// A statement and the texts to bind to its placeholders, the first text to
/// the first placeholder.
#[derive(Clone, Debug, PartialEq, Eq)]
pub struct Statement {
    pub sql: String,
    pub params: Vec<String>,
}

/// A statement and its bound texts as sequences of characters.
pub struct StatementView {
    pub sql: Seq<char>,
    pub params: Seq<Seq<char>>,
}

impl View for Statement {
    type V = StatementView;

    open spec fn view(&self) -> StatementView {
        StatementView {
            sql: self.sql@,
            params: Seq::new(self.params@.len(), |i: int| self.params@[i]@),
        }
    }
}

/// The statement that prepares the database: `SCHEMA_SQL`, nothing bound.
pub open spec fn schema() -> StatementView {
    StatementView { sql: SCHEMA_SQL@, params: Seq::empty() }
}

/// The statement that stores `f`: `INSERT_SQL` with the four texts of `f`
/// bound as they are.
pub open spec fn insertion(f: FormText) -> StatementView {
    StatementView { sql: INSERT_SQL@, params: seq![f.name, f.email, f.subject, f.message] }
}

/// Builds the statement of `schema`.
pub fn schema_statement() -> (s: Statement)
    ensures
        s@ == schema(),
{
    let s = Statement { sql: String::from_str(SCHEMA_SQL), params: Vec::new() };
    assert(s@.params =~= Seq::empty());
    s
}

/// Builds the statement of `insertion` for `form`.
pub fn insert_statement(form: &ContactForm) -> (s: Statement)
    ensures
        s@ == insertion(form@),
{
    let mut params: Vec<String> = Vec::new();
    params.push(form.name.clone());
    params.push(form.email.clone());
    params.push(form.subject.clone());
    params.push(form.message.clone());
    let s = Statement { sql: String::from_str(INSERT_SQL), params };
    assert(s@.params =~= seq![form@.name, form@.email, form@.subject, form@.message]);
    s
}

} // verus!
