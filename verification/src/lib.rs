//! The rules of a contact-form endpoint: which requests are let in, which
//! submissions are accepted, what is stored and what is answered.
//!
//! A request goes through three stages, and the first that fails answers it:
//!
//! - `origin`: the origin guard, a same-site check on the request's headers;
//! - `form`: the form validator, rules on the submission's four fields;
//! - `store`: the statement that appends an accepted submission.
//!
//! `handler` puts the stages in a row and maps each outcome to an answer of
//! `reply`. `pattern` searches the email address for the email grammar, and
//! `text` holds what the rules need to know of characters. `laws` states
//! what follows for every request.
//!
//! The library reads no socket and opens no database: a server hands it the
//! header bytes and the submission, runs the statement it is given, and
//! sends the answer.

pub mod form;
pub mod handler;
pub mod laws;
pub mod origin;
pub mod pattern;
pub mod reply;
pub mod store;
pub mod text;
