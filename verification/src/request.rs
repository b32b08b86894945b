//! What is sent: one HTTP request, as plain data.

use crate::json::Json;
use crate::record::{blob_of, views};
use serde_json::Value;
use vstd::prelude::*;

verus! {

/// The HTTP methods that the service is spoken to with.
#[derive(Debug, Clone, Copy, PartialEq, Eq, Structural)]
pub enum Method {
    Get,
    Post,
    Delete,
}

/// One header line.
#[derive(Debug, Clone, Copy)]
pub struct Header {
    pub name: &'static str,
    pub value: &'static str,
}

impl View for Header {
    type V = (Seq<char>, Seq<char>);

    open spec fn view(&self) -> (Seq<char>, Seq<char>) {
        (self.name@, self.value@)
    }
}

/// A request, ready to be sent: the method, the full URL, the header lines
/// in order, and the JSON document that is the body, if there is one.
#[derive(Debug, Clone)]
pub struct Request {
    pub method: Method,
    pub url: String,
    pub headers: Vec<Header>,
    pub body: Option<Value>,
}

pub struct RequestView {
    pub method: Method,
    pub url: Seq<char>,
    pub headers: Seq<(Seq<char>, Seq<char>)>,
    pub body: Option<Json>,
}

impl View for Request {
    type V = RequestView;

    open spec fn view(&self) -> RequestView {
        RequestView {
            method: self.method,
            url: self.url@,
            headers: views(self.headers@),
            body: blob_of(self.body),
        }
    }
}

/// The header lines of every request: the body, where there is one, is
/// JSON, and JSON is what the reply should be.
pub open spec fn default_headers_view() -> Seq<(Seq<char>, Seq<char>)> {
    seq![("Content-Type"@, "application/json"@), ("Accept"@, "application/json"@)]
}

/// A GET of `url`.
pub open spec fn get_of(url: Seq<char>) -> RequestView {
    RequestView { method: Method::Get, url, headers: default_headers_view(), body: None }
}

/// A POST of the document `body` to `url`.
pub open spec fn post_of(url: Seq<char>, body: Json) -> RequestView {
    RequestView { method: Method::Post, url, headers: default_headers_view(), body: Some(body) }
}

/// A DELETE of `url`.
pub open spec fn delete_of(url: Seq<char>) -> RequestView {
    RequestView { method: Method::Delete, url, headers: default_headers_view(), body: None }
}

/// The header lines of every request.
pub fn default_headers() -> (r: Vec<Header>)
    ensures
        views(r@) == default_headers_view(),
{
    let mut headers: Vec<Header> = Vec::new();
    headers.push(Header { name: "Content-Type", value: "application/json" });
    headers.push(Header { name: "Accept", value: "application/json" });
    assert(views(headers@) =~= default_headers_view());
    headers
}

} // verus!
