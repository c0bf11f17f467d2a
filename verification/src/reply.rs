//! What the endpoint answers: a status, a text, and the way the text is
//! presented in the body.

use vstd::prelude::*;
use vstd::string::StringExecFns;

verus! {

/// The status of an answer.
#[derive(Clone, Copy, Debug, PartialEq, Eq, Structural)]
pub enum Status {
    Created,
    BadRequest,
    Forbidden,
    InternalServerError,
}

impl Status {
    /// The number that stands for the status on the wire.
    pub open spec fn number(self) -> int {
        match self {
            Status::Created => 201,
            Status::BadRequest => 400,
            Status::Forbidden => 403,
            Status::InternalServerError => 500,
        }
    }

    /// The number of `number`, as the server needs it.
    pub fn code(&self) -> (c: u16)
        ensures
            c == self.number(),
    {
        match self {
            Status::Created => 201,
            Status::BadRequest => 400,
            Status::Forbidden => 403,
            Status::InternalServerError => 500,
        }
    }
}

/// How the text of an answer is presented in the body.
#[derive(Clone, Copy, Debug, PartialEq, Eq, Structural)]
pub enum Body {
    /// The text as it is.
    Plain,
    /// A JSON object whose one member, `error`, is the text.
    JsonError,
    /// A JSON object whose one member, `message`, is the text.
    JsonMessage,
}

impl Body {
    /// The name of the JSON member that holds the text; `None` where the
    /// body is the text itself.
    pub open spec fn member(self) -> Option<Seq<char>> {
        match self {
            Body::Plain => None,
            Body::JsonError => Some("error"@),
            Body::JsonMessage => Some("message"@),
        }
    }

    /// The name of `member` as a string.
    pub fn member_name(&self) -> (r: Option<String>)
        ensures
            match self.member() {
                None => r is None,
                Some(name) => r matches Some(s) && s@ == name,
            },
    {
        match self {
            Body::Plain => None,
            Body::JsonError => Some(String::from_str("error")),
            Body::JsonMessage => Some(String::from_str("message")),
        }
    }
}

/// An answer to the client.
#[derive(Clone, Debug, PartialEq, Eq)]
pub struct Reply {
    pub status: Status,
    pub body: Body,
    pub text: String,
}

/// An answer, with its text as a sequence of characters.
pub struct ReplyView {
    pub status: Status,
    pub body: Body,
    pub text: Seq<char>,
}

impl View for Reply {
    type V = ReplyView;

    open spec fn view(&self) -> ReplyView {
        ReplyView { status: self.status, body: self.body, text: self.text@ }
    }
}

} // verus!
