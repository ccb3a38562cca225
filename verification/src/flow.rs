//! The conversation between a request handler and the driver that performs
//! its storage calls.
//!
//! A handler never touches storage. It is a function from what has happened
//! so far to what must happen next: the driver performs the [`Action`] it is
//! given, reports the outcome as an [`Event`], and asks the handler again,
//! until the action is to respond.

use crate::db::query::{Query, QueryView, ReplyKind};
use crate::models::user::{user_views, User, UserView};
use crate::response::{error_response, Response, ResponseView, Status};
use vstd::prelude::*;

verus! {

/// What the driver must do next.
#[derive(Debug, PartialEq, Eq)]
pub enum Action {
    /// Take a client from the connection pool.
    Acquire,
    /// Prepare the statement of this query on the client.
    Prepare(Query),
    /// Run the prepared statement with the values of this query.
    Run(Query),
    /// Send this response; the request is finished.
    Respond(Response),
    /// Give up on the request without a response: what was reported cannot
    /// follow from what was asked.
    Abort,
}

/// The mathematical value of an [`Action`].
pub enum ActionView {
    Acquire,
    Prepare(QueryView),
    Run(QueryView),
    Respond(ResponseView),
    Abort,
}

impl View for Action {
    type V = ActionView;

    open spec fn view(&self) -> ActionView {
        match *self {
            Action::Acquire => ActionView::Acquire,
            Action::Prepare(query) => ActionView::Prepare(query@),
            Action::Run(query) => ActionView::Run(query@),
            Action::Respond(response) => ActionView::Respond(response@),
            Action::Abort => ActionView::Abort,
        }
    }
}

impl ActionView {
    /// No further action follows this one.
    pub open spec fn is_final(self) -> bool {
        self is Respond || self is Abort
    }
}

/// The outcome of an action, as the driver reports it.
#[derive(Debug, PartialEq, Eq)]
pub enum Event {
    /// The pool handed out a client.
    Connected,
    /// The statement was prepared.
    Prepared,
    /// The statement ran; these are the `id`s of its rows, in order.
    Ids(Vec<i32>),
    /// The statement ran; these are its rows, in order.
    Users(Vec<User>),
    /// The statement ran and changed this many rows.
    Affected(u64),
    /// The call failed; this is the text of its error.
    Failed(String),
}

/// The mathematical value of an [`Event`].
pub enum EventView {
    Connected,
    Prepared,
    Ids(Seq<i32>),
    Users(Seq<UserView>),
    Affected(u64),
    Failed(Seq<char>),
}

impl View for Event {
    type V = EventView;

    open spec fn view(&self) -> EventView {
        match *self {
            Event::Connected => EventView::Connected,
            Event::Prepared => EventView::Prepared,
            Event::Ids(ids) => EventView::Ids(ids@),
            Event::Users(users) => EventView::Users(user_views(users@)),
            Event::Affected(count) => EventView::Affected(count),
            Event::Failed(error) => EventView::Failed(error@),
        }
    }
}

/// How far the handling of a request has come.
#[derive(Debug, PartialEq, Eq)]
pub enum Progress {
    /// Nothing has been asked of the driver yet.
    Start,
    /// The driver performed the action and reports the event.
    After(Action, Event),
}

/// The mathematical value of a [`Progress`].
pub enum ProgressView {
    Start,
    After(ActionView, EventView),
}

impl View for Progress {
    type V = ProgressView;

    open spec fn view(&self) -> ProgressView {
        match *self {
            Progress::Start => ProgressView::Start,
            Progress::After(action, event) => ProgressView::After(action@, event@),
        }
    }
}

/// Whether `event` is a possible outcome of `action`.
pub open spec fn answers(action: ActionView, event: EventView) -> bool {
    match action {
        ActionView::Acquire => event is Connected || event is Failed,
        ActionView::Prepare(_) => event is Prepared || event is Failed,
        ActionView::Run(query) => match event {
            EventView::Ids(_) => query.reply_kind() == ReplyKind::Ids,
            EventView::Users(_) => query.reply_kind() == ReplyKind::Users,
            EventView::Affected(_) => query.reply_kind() == ReplyKind::Affected,
            EventView::Failed(_) => true,
            _ => false,
        },
        ActionView::Respond(_) | ActionView::Abort => false,
    }
}

/// The response to a failure of the storage layer: status 500 and the error
/// text `context` followed by the text of the failure.
pub open spec fn storage_failure(context: Seq<char>, detail: Seq<char>) -> ActionView {
    ActionView::Respond(error_response(Status::InternalServerError, context + detail))
}

/// What follows the attempt to take a client from the pool: with a client,
/// the statement of `first` is prepared; without one, the request fails.
pub open spec fn after_acquire(event: EventView, first: QueryView) -> ActionView {
    match event {
        EventView::Connected => ActionView::Prepare(first),
        EventView::Failed(e) => storage_failure("Failed to get client: "@, e),
        _ => ActionView::Abort,
    }
}

/// What follows the attempt to prepare the statement of `query`: once
/// prepared it is run; otherwise the request fails.
pub open spec fn after_prepare(query: QueryView, event: EventView) -> ActionView {
    match event {
        EventView::Prepared => ActionView::Run(query),
        EventView::Failed(e) => storage_failure("Failed to prepare statement: "@, e),
        _ => ActionView::Abort,
    }
}

impl Action {
    /// The response to a failure of the storage layer.
    pub fn storage_failure(context: &str, detail: &str) -> (next: Action)
        ensures
            next@ == storage_failure(context@, detail@),
    {
        Action::Respond(Response::storage_failure(context, detail))
    }

    /// The action that follows the attempt to take a client from the pool.
    pub fn after_acquire(event: Event, first: Query) -> (next: Action)
        ensures
            next@ == after_acquire(event@, first@),
    {
        match event {
            Event::Connected => Action::Prepare(first),
            Event::Failed(e) => Action::storage_failure("Failed to get client: ", e.as_str()),
            _ => Action::Abort,
        }
    }

    /// The action that follows the attempt to prepare the statement of `query`.
    pub fn after_prepare(query: Query, event: Event) -> (next: Action)
        ensures
            next@ == after_prepare(query@, event@),
    {
        match event {
            Event::Prepared => Action::Run(query),
            Event::Failed(e) => Action::storage_failure(
                "Failed to prepare statement: ",
                e.as_str(),
            ),
            _ => Action::Abort,
        }
    }
}

} // verus!
