//! What a handler answers: a status and a body, as plain values that the
//! transport layer turns into an HTTP response.

use crate::models::user::{user_views, User, UserView};
use vstd::prelude::*;

verus! {

/// The HTTP statuses the service answers with.
#[derive(Clone, Copy, Debug, PartialEq, Eq, Structural)]
pub enum Status {
    Success,
    Created,
    BadRequest,
    NotFound,
    Conflict,
    InternalServerError,
}

impl Status {
    /// The numeric status code.
    pub open spec fn spec_code(self) -> u16 {
        match self {
            Status::Success => 200,
            Status::Created => 201,
            Status::BadRequest => 400,
            Status::NotFound => 404,
            Status::Conflict => 409,
            Status::InternalServerError => 500,
        }
    }

    /// The numeric status code.
    #[verifier::when_used_as_spec(spec_code)]
    pub fn code(self) -> (code: u16)
        ensures
            code == self.spec_code(),
    {
        match self {
            Status::Success => 200,
            Status::Created => 201,
            Status::BadRequest => 400,
            Status::NotFound => 404,
            Status::Conflict => 409,
            Status::InternalServerError => 500,
        }
    }
}

/// The body of a response. Each variant but the last two is a JSON value
/// whose keys are the names of the variant's fields.
#[derive(Debug, PartialEq, Eq)]
pub enum Body {
    /// `{"error": ..}`
    Error { error: String },
    /// `{"id": .., "message": ..}`
    Created { id: i32, message: String },
    /// One user, as a JSON object of its seven fields.
    User(User),
    /// A JSON array of users.
    Users(Vec<User>),
    /// `{"message": .., "user": {..}}`
    Updated { message: String, user: User },
    /// `{"message": ..}`
    Message { message: String },
    /// An HTML page.
    Html(String),
    /// Plain text.
    Text(String),
}

/// The mathematical value of a [`Body`].
pub enum BodyView {
    Error { error: Seq<char> },
    Created { id: i32, message: Seq<char> },
    User(UserView),
    Users(Seq<UserView>),
    Updated { message: Seq<char>, user: UserView },
    Message { message: Seq<char> },
    Html(Seq<char>),
    Text(Seq<char>),
}

impl View for Body {
    type V = BodyView;

    open spec fn view(&self) -> BodyView {
        match *self {
            Body::Error { error } => BodyView::Error { error: error@ },
            Body::Created { id, message } => BodyView::Created { id, message: message@ },
            Body::User(user) => BodyView::User(user@),
            Body::Users(users) => BodyView::Users(user_views(users@)),
            Body::Updated { message, user } => BodyView::Updated { message: message@, user: user@ },
            Body::Message { message } => BodyView::Message { message: message@ },
            Body::Html(page) => BodyView::Html(page@),
            Body::Text(text) => BodyView::Text(text@),
        }
    }
}

/// A complete answer to one request.
#[derive(Debug, PartialEq, Eq)]
pub struct Response {
    pub status: Status,
    pub body: Body,
}

/// The mathematical value of a [`Response`].
pub struct ResponseView {
    pub status: Status,
    pub body: BodyView,
}

impl View for Response {
    type V = ResponseView;

    open spec fn view(&self) -> ResponseView {
        ResponseView { status: self.status, body: self.body@ }
    }
}

/// The answer that reports `error` under `status`.
pub open spec fn error_response(status: Status, error: Seq<char>) -> ResponseView {
    ResponseView { status, body: BodyView::Error { error } }
}

/// The success answer that carries only `message`.
pub open spec fn message_response(message: Seq<char>) -> ResponseView {
    ResponseView { status: Status::Success, body: BodyView::Message { message } }
}

impl Response {
    /// Builds the answer that reports `error` under `status`.
    pub fn error(status: Status, error: String) -> (r: Response)
        ensures
            r@ == error_response(status, error@),
    {
        Response { status, body: Body::Error { error } }
    }

    /// Builds the answer that reports a failure of the storage layer: status
    /// 500 and the error text `context` followed by `detail`.
    pub fn storage_failure(context: &str, detail: &str) -> (r: Response)
        ensures
            r@ == error_response(Status::InternalServerError, context@ + detail@),
    {
        Response::error(Status::InternalServerError, String::from_str(context).concat(detail))
    }

    /// Builds the success answer that carries only `message`.
    pub fn message(message: &str) -> (r: Response)
        ensures
            r@ == message_response(message@),
    {
        Response { status: Status::Success, body: Body::Message { message: String::from_str(message) } }
    }
}

} // verus!
