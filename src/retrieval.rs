use vstd::prelude::*;

use crate::fields::{field_value, find_field, pairs_view};

verus! {

/// Why a retrieval request ended without relaying a file.
#[derive(Clone, Copy, Debug, PartialEq, Eq, Structural)]
pub enum RetrievalError {
    /// The record store could not be reached.
    StoreUnavailable,
    /// No record is stored under the requested identifier.
    RecordNotFound,
    /// A record exists but lacks a field that retrieval needs.
    MalformedRecord,
    /// The origin request failed.
    UpstreamFetch,
}

/// What a found record makes of a request: where to fetch the bytes and the
/// two headers that go back with them.
pub struct FetchPlan {
    pub origin_url: String,
    pub content_type: String,
    pub content_disposition: String,
}

impl View for FetchPlan {
    /// (origin URL, content type, content disposition)
    type V = (Seq<char>, Seq<char>, Seq<char>);

    open spec fn view(&self) -> Self::V {
        (self.origin_url@, self.content_type@, self.content_disposition@)
    }
}

/// The status line and headers sent before the relayed body.
pub struct ResponseHead {
    pub status: u16,
    pub content_type: String,
    pub content_disposition: String,
}

/// A terminal response with a plain-text body.
pub struct ErrorReply {
    pub status: u16,
    pub content_type: String,
    pub body: String,
}

pub open spec fn origin_prefix() -> Seq<char> {
    "https://api.telegram.org/file/bot"@
}

/// The origin URL of the file at `path`, fetched with credential `token`.
pub open spec fn origin_url_of(token: Seq<char>, path: Seq<char>) -> Seq<char> {
    origin_prefix() + token + "/"@ + path
}

/// `attachment; filename="<name>"`, with the name taken literally.
pub open spec fn disposition_of(name: Seq<char>) -> Seq<char> {
    "attachment; filename=\""@ + name + "\""@
}

/// The outcome of looking up a record whose stored fields are `h`
/// (empty when no record is stored under the key).
pub open spec fn plan_of(h: Seq<(Seq<char>, Seq<char>)>) -> Result<
    (Seq<char>, Seq<char>, Seq<char>),
    RetrievalError,
> {
    if h.len() == 0 {
        Err(RetrievalError::RecordNotFound)
    } else {
        match (
            find_field(h, "path"@),
            find_field(h, "token"@),
            find_field(h, "mime"@),
            find_field(h, "name"@),
        ) {
            (Some(path), Some(token), Some(mime), Some(name)) => Ok(
                (origin_url_of(token, path), mime, disposition_of(name)),
            ),
            _ => Err(RetrievalError::MalformedRecord),
        }
    }
}

pub open spec fn plan_view(r: Result<FetchPlan, RetrievalError>) -> Result<
    (Seq<char>, Seq<char>, Seq<char>),
    RetrievalError,
> {
    match r {
        Ok(p) => Ok(p@),
        Err(e) => Err(e),
    }
}

/// The origin URL for `token` and `path`.
pub fn origin_url(token: &str, path: &str) -> (r: String)
    ensures
        r@ == origin_url_of(token@, path@),
{
    let mut u = String::from_str("https://api.telegram.org/file/bot");
    u.append(token);
    u.append("/");
    u.append(path);
    u
}

/// The `Content-Disposition` value for a stored display name.
pub fn content_disposition(name: &str) -> (r: String)
    ensures
        r@ == disposition_of(name@),
{
    let mut d = String::from_str("attachment; filename=\"");
    d.append(name);
    d.append("\"");
    d
}

/// Decides a request from the fields read under its record key: not found
/// for an absent record, malformed for one missing path, token, mime or
/// name, else the fetch plan.
pub fn plan_retrieval(fields: &Vec<(String, String)>) -> (r: Result<FetchPlan, RetrievalError>)
    ensures
        plan_view(r) == plan_of(pairs_view(fields@)),
{
    if fields.len() == 0 {
        return Err(RetrievalError::RecordNotFound);
    }
    let path = field_value(fields, "path");
    let token = field_value(fields, "token");
    let mime = field_value(fields, "mime");
    let name = field_value(fields, "name");
    match (path, token, mime, name) {
        (Some(path), Some(token), Some(mime), Some(name)) => Ok(
            FetchPlan {
                origin_url: origin_url(token.as_str(), path.as_str()),
                content_type: mime,
                content_disposition: content_disposition(name.as_str()),
            },
        ),
        _ => Err(RetrievalError::MalformedRecord),
    }
}

/// The head of the relayed response: the origin's status unchanged, the
/// stored content type and the attachment disposition.
pub fn relay_head(plan: &FetchPlan, status: u16) -> (r: ResponseHead)
    ensures
        r.status == status,
        r.content_type@ == plan.content_type@,
        r.content_disposition@ == plan.content_disposition@,
{
    ResponseHead {
        status,
        content_type: plan.content_type.clone(),
        content_disposition: plan.content_disposition.clone(),
    }
}

pub open spec fn plain_text() -> Seq<char> {
    "text/plain; charset=utf-8"@
}

pub open spec fn reply_status(e: RetrievalError) -> u16 {
    match e {
        RetrievalError::RecordNotFound | RetrievalError::MalformedRecord => 404,
        RetrievalError::StoreUnavailable => 500,
        RetrievalError::UpstreamFetch => 502,
    }
}

pub open spec fn reply_body(e: RetrievalError) -> Seq<char> {
    match e {
        RetrievalError::RecordNotFound | RetrievalError::MalformedRecord => "file not found"@,
        RetrievalError::StoreUnavailable => "server error: db connection failed"@,
        RetrievalError::UpstreamFetch => "server error: upstream request failed"@,
    }
}

impl RetrievalError {
    /// The terminal response for this failure: not found for a missing or
    /// incomplete record, a server error for store and origin failures.
    pub fn reply(&self) -> (r: ErrorReply)
        ensures
            r.status == reply_status(*self),
            r.body@ == reply_body(*self),
            r.content_type@ == plain_text(),
    {
        let (status, body) = match self {
            RetrievalError::RecordNotFound | RetrievalError::MalformedRecord => (
                404u16,
                String::from_str("file not found"),
            ),
            RetrievalError::StoreUnavailable => (
                500u16,
                String::from_str("server error: db connection failed"),
            ),
            RetrievalError::UpstreamFetch => (
                502u16,
                String::from_str("server error: upstream request failed"),
            ),
        };
        ErrorReply { status, content_type: String::from_str("text/plain; charset=utf-8"), body }
    }
}

/// The response to a path that names no file.
pub fn unmatched_reply() -> (r: ErrorReply)
    ensures
        r.status == 404,
        r.body@ == "nothing here"@,
        r.content_type@ == plain_text(),
{
    ErrorReply {
        status: 404,
        content_type: String::from_str("text/plain; charset=utf-8"),
        body: String::from_str("nothing here"),
    }
}

} // verus!
