use vstd::prelude::*;
use crate::error::{EsiError, EsiErrorView};
use crate::json;
use crate::json::{json_parsed, json_view, Json};

pub mod handlers;
pub mod state;

verus! {

#[derive(Clone, Copy, Debug, PartialEq, Eq, Structural)]
pub enum Method {
    Get,
    Post,
}

/// A request for the transport to send: plain values, nothing sent yet.
#[derive(Debug, PartialEq, Eq)]
pub struct HttpRequest {
    pub method: Method,
    pub url: String,
    /// Header names and values, in the order in which they are set.
    pub headers: Vec<(String, String)>,
    /// The fields of a form body; empty for a request without a body.
    pub form: Vec<(String, String)>,
}

/// Names and values as texts.
pub open spec fn pairs(items: Seq<(String, String)>) -> Seq<(Seq<char>, Seq<char>)> {
    items.map_values(|p: (String, String)| (p.0@, p.1@))
}

pub struct HttpRequestView {
    pub method: Method,
    pub url: Seq<char>,
    pub headers: Seq<(Seq<char>, Seq<char>)>,
    pub form: Seq<(Seq<char>, Seq<char>)>,
}

impl View for HttpRequest {
    type V = HttpRequestView;

    open spec fn view(&self) -> HttpRequestView {
        HttpRequestView {
            method: self.method,
            url: self.url@,
            headers: pairs(self.headers@),
            form: pairs(self.form@),
        }
    }
}

/// What came back for a request: the status code and the body as text.
#[derive(Debug, PartialEq, Eq)]
pub struct HttpReply {
    pub status: u16,
    pub body: String,
}

/// Whether a status code reports success: 200 to 299.
pub open spec fn is_success(status: int) -> bool {
    200 <= status < 300
}

/// The body of what a request brought back, or the error that stands for
/// its failure. The text on the error side of `fetched` is what the transport
/// said when it could not deliver.
pub open spec fn body_of(fetched: Result<HttpReply, String>) -> Result<Seq<char>, EsiErrorView> {
    match fetched {
        Err(said) => Err(EsiErrorView::Network(said@)),
        Ok(reply) => if is_success(reply.status as int) {
            Ok(reply.body@)
        } else {
            Err(EsiErrorView::Http { status: reply.status as int, body: reply.body@ })
        },
    }
}

/// The JSON document that a request brought back, or the error that stands
/// for its failure.
pub open spec fn document_of(fetched: Result<HttpReply, String>) -> Result<Json, EsiErrorView> {
    match body_of(fetched) {
        Err(e) => Err(e),
        Ok(body) => match json_parsed(body) {
            Some(doc) => Ok(doc),
            None => Err(EsiErrorView::Decode),
        },
    }
}

/// Sorts out what a request brought back: a transport failure and a status
/// outside 200 to 299 become errors, anything else gives up its body.
pub fn read_body(fetched: &Result<HttpReply, String>) -> (r: Result<&str, EsiError>)
    ensures
        match body_of(*fetched) {
            Ok(body) => r is Ok && r->Ok_0@ == body,
            Err(e) => r is Err && r->Err_0@ == e,
        },
{
    match fetched {
        Err(said) => Err(EsiError::Network(said.clone())),
        Ok(reply) => {
            if 200 <= reply.status && reply.status < 300 {
                Ok(reply.body.as_str())
            } else {
                Err(EsiError::Http { status: reply.status, body: reply.body.clone() })
            }
        },
    }
}

/// Reads what a request brought back as JSON.
pub fn read_document(fetched: &Result<HttpReply, String>) -> (r: Result<
    serde_json::Value,
    EsiError,
>)
    ensures
        match document_of(*fetched) {
            Ok(doc) => r is Ok && json_view(r->Ok_0) == doc,
            Err(e) => r is Err && r->Err_0@ == e,
        },
{
    match read_body(fetched) {
        Err(e) => Err(e),
        Ok(body) => match json::parse(body) {
            Ok(doc) => Ok(doc),
            Err(_) => Err(EsiError::Decode),
        },
    }
}

} // verus!
