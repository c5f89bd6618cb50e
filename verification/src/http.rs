//! HTTP requests that the bot wants sent, and the replies it is handed back.
use vstd::prelude::*;

use crate::json::{json_document, parse, Json, JsonV};
use crate::text::cat2;

verus! {

/// The method of a request.
#[derive(Clone, Copy, Debug, PartialEq, Eq, Structural)]
pub enum Method {
    Get,
    Post,
    Delete,
}

/// What a request carries.
#[derive(Debug, PartialEq)]
pub enum Body {
    Empty,
    Json(Json),
    /// A multipart form: the recorded audio as the part `file`, under the given name and media
    /// type, and the text fields.
    Audio { file_name: String, media_type: String, fields: Vec<(String, String)> },
}

/// A request to be sent.
#[derive(Debug, PartialEq)]
pub struct Request {
    pub method: Method,
    pub url: String,
    pub headers: Vec<(String, String)>,
    pub query: Vec<(String, String)>,
    pub body: Body,
}

/// What a request carries.
pub ghost enum BodyV {
    Empty,
    Json(JsonV),
    Audio { file_name: Seq<char>, media_type: Seq<char>, fields: Seq<(Seq<char>, Seq<char>)> },
}

/// What a request asks for.
pub ghost struct RequestV {
    pub method: Method,
    pub url: Seq<char>,
    pub headers: Seq<(Seq<char>, Seq<char>)>,
    pub query: Seq<(Seq<char>, Seq<char>)>,
    pub body: BodyV,
}

/// The characters of each pair of texts.
pub open spec fn pairs(list: Seq<(String, String)>) -> Seq<(Seq<char>, Seq<char>)> {
    list.map_values(|p: (String, String)| (p.0@, p.1@))
}

impl View for Body {
    type V = BodyV;

    open spec fn view(&self) -> BodyV {
        match self {
            Body::Empty => BodyV::Empty,
            Body::Json(j) => BodyV::Json(j@),
            Body::Audio { file_name, media_type, fields } => BodyV::Audio {
                file_name: file_name@,
                media_type: media_type@,
                fields: pairs(fields@),
            },
        }
    }
}

impl View for Request {
    type V = RequestV;

    open spec fn view(&self) -> RequestV {
        RequestV {
            method: self.method,
            url: self.url@,
            headers: pairs(self.headers@),
            query: pairs(self.query@),
            body: self.body@,
        }
    }
}

/// A plain request for a page.
pub open spec fn get_request(url: Seq<char>, query: Seq<(Seq<char>, Seq<char>)>) -> RequestV {
    RequestV {
        method: Method::Get,
        url,
        headers: Seq::empty(),
        query,
        body: BodyV::Empty,
    }
}

/// A request that posts a JSON value.
pub open spec fn post_json(url: Seq<char>, value: JsonV) -> RequestV {
    RequestV {
        method: Method::Post,
        url,
        headers: Seq::empty(),
        query: Seq::empty(),
        body: BodyV::Json(value),
    }
}

/// Builds a plain request for a page.
pub fn get(url: String, query: Vec<(String, String)>) -> (r: Request)
    ensures
        r@ == get_request(url@, pairs(query@)),
{
    let r = Request { method: Method::Get, url, headers: Vec::new(), query, body: Body::Empty };
    assert(r@.headers =~= Seq::empty());
    r
}

/// Builds a request that posts a JSON value.
pub fn post(url: String, value: Json) -> (r: Request)
    ensures
        r@ == post_json(url@, value@),
{
    let r = Request {
        method: Method::Post,
        url,
        headers: Vec::new(),
        query: Vec::new(),
        body: Body::Json(value),
    };
    assert(r@.headers =~= Seq::empty());
    assert(r@.query =~= Seq::empty());
    r
}

/// One pair of texts.
pub fn pair(a: &str, b: &str) -> (r: (String, String))
    ensures
        r.0@ == a@,
        r.1@ == b@,
{
    (a.to_owned(), b.to_owned())
}

/// What came of a request: no connection, or an answer whose body could be read or not. The
/// `reason` is the status line's code and phrase.
#[derive(Debug, PartialEq)]
pub enum Reply<S = String, B = Vec<u8>> {
    Unreachable(S),
    Answered { status: u16, reason: S, body: Result<B, S> },
}

/// A reply whose body is read as text.
pub type Page = Reply<String, String>;

/// What a reply says.
pub type ReplyV = Reply<Seq<char>, Seq<u8>>;

/// What a reply with a text says.
pub type PageV = Reply<Seq<char>, Seq<char>>;

impl View for Reply<String, Vec<u8>> {
    type V = ReplyV;

    open spec fn view(&self) -> ReplyV {
        match self {
            Reply::Unreachable(e) => Reply::Unreachable(e@),
            Reply::Answered { status, reason, body } => Reply::Answered {
                status: *status,
                reason: reason@,
                body: match body {
                    Ok(b) => Ok(b@),
                    Err(e) => Err(e@),
                },
            },
        }
    }
}

impl View for Reply<String, String> {
    type V = PageV;

    open spec fn view(&self) -> PageV {
        match self {
            Reply::Unreachable(e) => Reply::Unreachable(e@),
            Reply::Answered { status, reason, body } => Reply::Answered {
                status: *status,
                reason: reason@,
                body: match body {
                    Ok(b) => Ok(b@),
                    Err(e) => Err(e@),
                },
            },
        }
    }
}

/// A status code from 200 to 299.
pub open spec fn success(status: u16) -> bool {
    200 <= status < 300
}

/// Tells whether the status code stands for success.
pub fn is_success(status: u16) -> (r: bool)
    ensures
        r == success(status),
{
    200 <= status && status < 300
}

/// The request was answered, with a status of success.
pub open spec fn went_well<S, B>(reply: Reply<S, B>) -> bool {
    match reply {
        Reply::Answered { status, .. } => success(status),
        Reply::Unreachable(_) => false,
    }
}

/// What a function that gives a text or a complaint has given.
pub open spec fn told(r: Result<String, String>) -> Result<Seq<char>, Seq<char>> {
    match r {
        Ok(s) => Ok(s@),
        Err(e) => Err(e@),
    }
}

/// What a function that gives a text or nothing has given.
pub open spec fn given(r: Option<String>) -> Option<Seq<char>> {
    match r {
        Some(s) => Some(s@),
        None => None,
    }
}

/// The JSON document of a reply, whatever its status.
pub open spec fn document_of(reply: ReplyV) -> Result<JsonV, Seq<char>> {
    match reply {
        Reply::Unreachable(e) => Err(e),
        Reply::Answered { body: Err(e), .. } => Err(e),
        Reply::Answered { body: Ok(b), .. } => match json_document(b) {
            Ok(v) => Ok(v),
            Err(e) => Err("error decoding response body: "@ + e),
        },
    }
}

/// Reads the JSON document of a reply, whatever its status.
pub fn document(reply: &Reply) -> (r: Result<Json, String>)
    ensures
        match r {
            Ok(j) => document_of(reply@) == Ok::<JsonV, Seq<char>>(j@),
            Err(e) => document_of(reply@) == Err::<JsonV, Seq<char>>(e@),
        },
{
    match reply {
        Reply::Unreachable(e) => Err(e.clone()),
        Reply::Answered { body, .. } => match body {
            Err(e) => Err(e.clone()),
            Ok(b) => match parse(b.as_slice()) {
                Ok(j) => Ok(j),
                Err(e) => Err(cat2("error decoding response body: ", e.as_str())),
            },
        },
    }
}

// ---- Laws ----------------------------------------------------------------------------------

/// Exactly the status codes from 200 to 299 stand for success, and no reply without a connection
/// went well.
pub proof fn successes_are_the_two_hundreds(status: u16, reason: Seq<char>, body: Result<Seq<u8>, Seq<char>>)
    ensures
        went_well(ReplyV::Answered { status, reason, body }) <==> status / 100 == 2,
        !went_well(ReplyV::Unreachable(reason)),
{
}

/// The document of a reply is what its body spells; the status does not matter to it. What went
/// wrong on the way is told as it is.
pub proof fn documents_are_the_bodies(status: u16, reason: Seq<char>, bytes: Seq<u8>, e: Seq<char>)
    ensures
        json_document(bytes) matches Ok(v) ==> document_of(
            ReplyV::Answered { status, reason, body: Ok(bytes) },
        ) == Ok::<JsonV, Seq<char>>(v),
        json_document(bytes) is Err ==> document_of(
            ReplyV::Answered { status, reason, body: Ok(bytes) },
        ) is Err,
        document_of(ReplyV::Answered { status, reason, body: Err(e) }) == Err::<JsonV, Seq<char>>(e),
        document_of(ReplyV::Unreachable(e)) == Err::<JsonV, Seq<char>>(e),
{
}

} // verus!
