//! Requests to the remote service as plain values. The engine decides what
//! is sent; sending is left to the caller.

use crate::api::board::{Board, BoardView};
use crate::api::task::{Task, TaskView};
use crate::API_URL;
use vstd::prelude::*;
use vstd::string::StringExecFns;

verus! {

/// The verb of a request.
#[derive(Debug, Clone, Copy, PartialEq, Eq, Structural)]
pub enum Method {
    Get,
    Post,
    Patch,
    Delete,
}

/// What a request carries. A text is sent as it stands; a task or a board is
/// sent in the notation of the service. Whatever is carried is announced as
/// JSON.
#[derive(Debug)]
pub enum Body {
    Empty,
    Text(String),
    Task(Task),
    Board(Board),
}

/// The body of a request as a mathematical value.
pub enum BodyView {
    Empty,
    Text(Seq<char>),
    Task(TaskView),
    Board(BoardView),
}

impl View for Body {
    type V = BodyView;

    open spec fn view(&self) -> BodyView {
        match self {
            Body::Empty => BodyView::Empty,
            Body::Text(text) => BodyView::Text(text@),
            Body::Task(task) => BodyView::Task(task@),
            Body::Board(board) => BodyView::Board(board@),
        }
    }
}

/// One request to the remote service.
#[derive(Debug)]
pub struct Request {
    pub method: Method,
    pub url: String,
    pub body: Body,
    /// Value of the cookie header, where the request names its session
    /// itself.
    pub cookie: Option<String>,
}

/// A request as a mathematical value.
pub struct RequestView {
    pub method: Method,
    pub url: Seq<char>,
    pub body: BodyView,
    pub cookie: Option<Seq<char>>,
}

impl View for Request {
    type V = RequestView;

    open spec fn view(&self) -> RequestView {
        RequestView {
            method: self.method,
            url: self.url@,
            body: self.body@,
            cookie: match self.cookie {
                Some(cookie) => Some(cookie@),
                None => None,
            },
        }
    }
}

/// The address of `path` at the remote service.
pub open spec fn address(path: Seq<char>) -> Seq<char> {
    API_URL@ + path
}

/// A request without a cookie header.
pub open spec fn plain_request(method: Method, url: Seq<char>, body: BodyView) -> RequestView {
    RequestView { method, url, body, cookie: None }
}

/// The address of `path` at the remote service.
pub fn address_of(path: &str) -> (url: String)
    ensures
        url@ == address(path@),
{
    let mut url = String::from_str(API_URL);
    url.append(path);
    url
}

/// The address made of `path`, `name` and `tail` at the remote service.
pub fn address_with(path: &str, name: &str, tail: &str) -> (url: String)
    ensures
        url@ == address(path@ + name@ + tail@),
{
    let mut url = String::from_str(API_URL);
    url.append(path);
    url.append(name);
    url.append(tail);
    assert(url@ =~= address(path@ + name@ + tail@));
    url
}

} // verus!
