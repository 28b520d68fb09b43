//! The one endpoint of the device and the two answers it can give.

use vstd::prelude::*;
use crate::admission::Admission;

verus! {

/// The status of a request that was served.
pub const STATUS_OK: u16 = 200;

/// The status of a request that came within the cooldown.
pub const STATUS_TOO_MANY_REQUESTS: u16 = 429;

/// The path of the endpoint.
pub const ROOT_PATH: &'static str = "/";

/// The content type of the page.
pub const PAGE_CONTENT_TYPE: &'static str = "text/html; charset=utf-8";

/// The page itself, byte for byte.
pub const PAGE_BODY: &'static str =
    "\n\t\t\t\t\t<html>\n\t\t\t\t\t\t<body>\n\t\t\t\t\t\t\t<h1>Hello World</h1>\n\t\t\t\t\t\t</body>\n\t\t\t\t\t</html>\n\t\t\t\t";

/// A request method.
#[derive(Clone, Copy, Debug, PartialEq, Eq, Hash)]
pub enum Method {
    Get,
    Post,
    Put,
    Delete,
    Head,
    Options,
    Patch,
}

/// A binding of a handler: the path and the method it answers to.
#[derive(Clone, Copy, Debug, PartialEq, Eq)]
pub struct Endpoint {
    pub path: &'static str,
    pub method: Method,
}

/// What is sent back on a connection.
#[derive(Clone, Copy, Debug, PartialEq, Eq)]
pub struct Response {
    pub status: u16,
    pub content_type: Option<&'static str>,
    pub body: &'static str,
}

/// The status, content type and body of a response, as plain values.
pub struct ResponseView {
    pub status: int,
    pub content_type: Option<Seq<char>>,
    pub body: Seq<char>,
}

impl View for Response {
    type V = ResponseView;

    open spec fn view(&self) -> ResponseView {
        ResponseView {
            status: self.status as int,
            content_type: match self.content_type {
                Some(text) => Some(text@),
                None => None,
            },
            body: self.body@,
        }
    }
}

/// The page, served with status 200.
pub open spec fn page_view() -> ResponseView {
    ResponseView {
        status: 200,
        content_type: Some(PAGE_CONTENT_TYPE@),
        body: PAGE_BODY@,
    }
}

/// The rejection: status 429, no headers, nothing in the body.
pub open spec fn rejection_view() -> ResponseView {
    ResponseView { status: 429, content_type: None, body: Seq::<char>::empty() }
}

/// The answer that a request gets, by what the guard decided about it.
pub open spec fn answer_view(admission: Admission) -> ResponseView {
    match admission {
        Admission::Forward => page_view(),
        Admission::TooManyRequests => rejection_view(),
    }
}

/// The binding under which the page is registered: `GET /`.
pub fn root_endpoint() -> (endpoint: Endpoint)
    ensures
        endpoint.path@ == ROOT_PATH@,
        endpoint.method == Method::Get,
{
    Endpoint { path: ROOT_PATH, method: Method::Get }
}

/// The answer of the page handler.
pub fn page() -> (response: Response)
    ensures
        response@ == page_view(),
{
    Response { status: STATUS_OK, content_type: Some(PAGE_CONTENT_TYPE), body: PAGE_BODY }
}

/// The answer to a request that the guard turned away.
pub fn rejection() -> (response: Response)
    ensures
        response@ == rejection_view(),
{
    proof {
        reveal_strlit("");
    }
    let response = Response { status: STATUS_TOO_MANY_REQUESTS, content_type: None, body: "" };
    assert(response.body@ =~= Seq::<char>::empty());
    response
}

/// The answer to a request to the endpoint, by what the guard decided.
pub fn answer(admission: Admission) -> (response: Response)
    ensures
        response@ == answer_view(admission),
{
    match admission {
        Admission::Forward => page(),
        Admission::TooManyRequests => rejection(),
    }
}

} // verus!
