//! The origin guard: the same-site check on the `Host`, `Origin` and
//! `Referer` headers that precedes validation.
//!
//! The policy is the one of `Host` and `Referer`: the `Host` header must name
//! the allowed domain, and so must a `Referer` header that is present and not
//! empty. `OriginPolicy::RequireOrigin` adds the stricter rule on `Origin`:
//! the header must be there, and must name the domain unless it is empty.
//! Under `OriginPolicy::HostAndReferer` the `Origin` header is not looked at.
//!
//! A header names the domain when the domain occurs somewhere in the header's
//! text: nothing is parsed, no letter case is folded, no scheme or port is
//! taken off.
//!
//! All headers are read before any is judged. So a header that cannot be
//! read as text, or a missing `Origin` header where it is required, is
//! reported as a bad request even if another header names a foreign site.
//! The headers are read in the order `Host`, `Origin`, `Referer`.

use crate::reply::{Body, Reply, ReplyView, Status};
use crate::text::{chars_of, contains, contains_chars};
use vstd::prelude::*;
use vstd::string::StringExecFns;

verus! {

/// The values of the three headers that the guard reads, as the bytes that
/// came over the wire; `None` for a header that the request does not have.
#[derive(Clone, Debug, PartialEq, Eq)]
pub struct RequestHeaders {
    pub host: Option<Vec<u8>>,
    pub origin: Option<Vec<u8>>,
    pub referer: Option<Vec<u8>>,
}

/// The header values as sequences of bytes.
pub struct HeaderBytes {
    pub host: Option<Seq<u8>>,
    pub origin: Option<Seq<u8>>,
    pub referer: Option<Seq<u8>>,
}

/// The bytes of a header value that may be missing.
pub open spec fn bytes_of(value: Option<Vec<u8>>) -> Option<Seq<u8>> {
    match value {
        Some(raw) => Some(raw@),
        None => None,
    }
}

impl View for RequestHeaders {
    type V = HeaderBytes;

    open spec fn view(&self) -> HeaderBytes {
        HeaderBytes {
            host: bytes_of(self.host),
            origin: bytes_of(self.origin),
            referer: bytes_of(self.referer),
        }
    }
}

/// Which headers the guard insists on.
#[derive(Clone, Copy, Debug, PartialEq, Eq, Structural)]
pub enum OriginPolicy {
    /// `Host` must name the domain; `Referer` must if it is given.
    HostAndReferer,
    /// As `HostAndReferer`, and `Origin` must be present and must name the
    /// domain unless it is empty.
    RequireOrigin,
}

/// Why the guard turns a request away.
#[derive(Clone, Copy, Debug, PartialEq, Eq, Structural)]
pub enum Rejection {
    /// The `Host` header is not text.
    InvalidHost,
    /// The `Origin` header is not text.
    InvalidOrigin,
    /// The `Referer` header is not text.
    InvalidReferer,
    /// The `Origin` header is required and missing.
    MissingOrigin,
    /// A header does not name the allowed domain.
    Denied,
}

impl Rejection {
    /// The status that the rejection is answered with: `Forbidden` for a
    /// header that names another site, `BadRequest` for the others.
    pub open spec fn status(self) -> Status {
        match self {
            Rejection::Denied => Status::Forbidden,
            _ => Status::BadRequest,
        }
    }

    /// The sentence that the rejection is answered with.
    pub open spec fn text(self) -> Seq<char> {
        match self {
            Rejection::InvalidHost => "Invalid host header"@,
            Rejection::InvalidOrigin => "Invalid origin header"@,
            Rejection::InvalidReferer => "Invalid referer header"@,
            Rejection::MissingOrigin => "Missing origin header"@,
            Rejection::Denied => "Access denied"@,
        }
    }

    /// The answer to a request that is turned away: the status and the
    /// sentence of the rejection, as plain text.
    pub open spec fn answer(self) -> ReplyView {
        ReplyView { status: self.status(), body: Body::Plain, text: self.text() }
    }

    /// Builds the answer of `answer`.
    pub fn reply(&self) -> (r: Reply)
        ensures
            r@ == self.answer(),
    {
        let status = match self {
            Rejection::Denied => Status::Forbidden,
            _ => Status::BadRequest,
        };
        let text = match self {
            Rejection::InvalidHost => String::from_str("Invalid host header"),
            Rejection::InvalidOrigin => String::from_str("Invalid origin header"),
            Rejection::InvalidReferer => String::from_str("Invalid referer header"),
            Rejection::MissingOrigin => String::from_str("Missing origin header"),
            Rejection::Denied => String::from_str("Access denied"),
        };
        Reply { status, body: Body::Plain, text }
    }
}

/// A byte that may stand in a header value that is read as text: a printable
/// ASCII character, the space included, or a tab.
pub open spec fn is_visible_ascii(b: u8) -> bool {
    32 <= b < 127 || b == 9
}

/// A header value can be read as text when each of its bytes is visible
/// ASCII.
pub open spec fn is_text(raw: Seq<u8>) -> bool {
    forall|i: int| 0 <= i < raw.len() ==> is_visible_ascii(#[trigger] raw[i])
}

/// The text of a header value: one character for each byte.
pub open spec fn text_of(raw: Seq<u8>) -> Seq<char> {
    Seq::new(raw.len(), |i: int| raw[i] as char)
}

/// A header is unreadable when it is present and its value is not text.
pub open spec fn unreadable(value: Option<Seq<u8>>) -> bool {
    value matches Some(raw) && !is_text(raw)
}

/// A header names the domain when `domain` occurs in its text.
pub open spec fn names_domain(raw: Seq<u8>, domain: Seq<char>) -> bool {
    contains(text_of(raw), domain)
}

/// An optional header is foreign when it is present, not empty, and does not
/// name the domain.
pub open spec fn foreign(value: Option<Seq<u8>>, domain: Seq<char>) -> bool {
    value matches Some(raw) && raw.len() > 0 && !names_domain(raw, domain)
}

/// The guard's verdict on a request: the reason to turn it away, or `None`
/// to let it pass.
pub open spec fn origin_verdict(
    headers: HeaderBytes,
    domain: Seq<char>,
    policy: OriginPolicy,
) -> Option<Rejection> {
    let strict = policy == OriginPolicy::RequireOrigin;
    if unreadable(headers.host) {
        Some(Rejection::InvalidHost)
    } else if strict && headers.origin is None {
        Some(Rejection::MissingOrigin)
    } else if strict && unreadable(headers.origin) {
        Some(Rejection::InvalidOrigin)
    } else if unreadable(headers.referer) {
        Some(Rejection::InvalidReferer)
    } else if !(headers.host matches Some(raw) && names_domain(raw, domain)) {
        Some(Rejection::Denied)
    } else if strict && foreign(headers.origin, domain) {
        Some(Rejection::Denied)
    } else if foreign(headers.referer, domain) {
        Some(Rejection::Denied)
    } else {
        None
    }
}

/// Reads a header value as text: its characters if every byte is visible
/// ASCII, `None` otherwise.
pub fn decode_header(raw: &[u8]) -> (r: Option<Vec<char>>)
    ensures
        r is Some <==> is_text(raw@),
        r matches Some(v) ==> v@ == text_of(raw@),
{
    let n: usize = raw.len();
    let mut v: Vec<char> = Vec::new();
    let mut i: usize = 0;
    while i < n
        invariant
            n == raw.len(),
            i <= n,
            v@.len() == i,
            forall|k: int| 0 <= k < i ==> is_visible_ascii(#[trigger] raw@[k]),
            forall|k: int| 0 <= k < i ==> #[trigger] v@[k] == raw@[k] as char,
        decreases n - i,
    {
        let b: u8 = raw[i];
        if !((32 <= b && b < 127) || b == 9) {
            return None;
        }
        v.push(b as char);
        i += 1;
    }
    assert(v@ =~= text_of(raw@));
    Some(v)
}

/// A header as the guard sees it once it is read.
enum Header {
    Absent,
    Unreadable,
    Text(Vec<char>),
}

impl Header {
    /// The header stands for `value`.
    spec fn reads(self, value: Option<Seq<u8>>) -> bool {
        match self {
            Header::Absent => value is None,
            Header::Unreadable => unreadable(value),
            Header::Text(t) => value matches Some(raw) && is_text(raw) && t@ == text_of(raw),
        }
    }
}

/// Reads a header that may be missing.
fn read_header(value: &Option<Vec<u8>>) -> (h: Header)
    ensures
        h.reads(bytes_of(*value)),
{
    match value {
        None => Header::Absent,
        Some(raw) => match decode_header(raw.as_slice()) {
            Some(t) => Header::Text(t),
            None => Header::Unreadable,
        },
    }
}

/// Decides `foreign` for a header that has been read.
fn is_foreign(h: &Header, domain: &Vec<char>, Ghost(value): Ghost<Option<Seq<u8>>>) -> (r: bool)
    requires
        h.reads(value),
        !unreadable(value),
    ensures
        r == foreign(value, domain@),
{
    match h {
        Header::Text(t) => t.len() > 0 && !contains_chars(t.as_slice(), domain.as_slice()),
        _ => false,
    }
}

/// The origin guard. Lets the request pass with `Ok`, or gives the reason of
/// `origin_verdict` to turn it away.
pub fn check_origin(headers: &RequestHeaders, allowed_domain: &str, policy: OriginPolicy) -> (r:
    Result<(), Rejection>)
    ensures
        match origin_verdict(headers@, allowed_domain@, policy) {
            None => r is Ok,
            Some(why) => r == Err::<(), Rejection>(why),
        },
{
    let strict = match policy {
        OriginPolicy::RequireOrigin => true,
        OriginPolicy::HostAndReferer => false,
    };
    let host = read_header(&headers.host);
    if let Header::Unreadable = host {
        return Err(Rejection::InvalidHost);
    }
    let origin = if strict {
        read_header(&headers.origin)
    } else {
        Header::Absent
    };
    if strict {
        match origin {
            Header::Absent => {
                return Err(Rejection::MissingOrigin);
            },
            Header::Unreadable => {
                return Err(Rejection::InvalidOrigin);
            },
            _ => {},
        }
    }
    let referer = read_header(&headers.referer);
    if let Header::Unreadable = referer {
        return Err(Rejection::InvalidReferer);
    }
    let domain = chars_of(allowed_domain);
    let host_names_domain = match &host {
        Header::Text(t) => contains_chars(t.as_slice(), domain.as_slice()),
        _ => false,
    };
    if !host_names_domain {
        return Err(Rejection::Denied);
    }
    if strict && is_foreign(&origin, &domain, Ghost(headers@.origin)) {
        return Err(Rejection::Denied);
    }
    if is_foreign(&referer, &domain, Ghost(headers@.referer)) {
        return Err(Rejection::Denied);
    }
    Ok(())
}

} // verus!
