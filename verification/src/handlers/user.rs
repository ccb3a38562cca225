//! The handlers of the user endpoints.
//!
//! Each handler that reads or writes storage is a step function: given the
//! request and the [`Progress`] so far it names the next [`Action`]. The
//! driver starts with [`Progress::Start`] and stops at the first
//! [`Action::Respond`] or [`Action::Abort`].

use crate::db::query::{Query, QueryView};
use crate::flow::{
    after_acquire, after_prepare, storage_failure, Action, ActionView, Event, EventView, Progress,
    ProgressView,
};
use crate::models::user::{CreateUser, NewUserView, UpdateUser, User, UserView};
use crate::response::{
    error_response, message_response, Body, BodyView, Response, ResponseView, Status,
};
use crate::validation::{username_error, validate_username};
use vstd::prelude::*;

verus! {

/// The decoded payload of a request to create a user.
#[derive(Debug, PartialEq, Eq)]
pub struct CreateUserForm {
    pub telegram_id: i64,
    pub username: String,
    pub tokens: i32,
    pub referals: i32,
    pub friends: i64,
    pub active_chat: i32,
}

impl View for CreateUserForm {
    type V = NewUserView;

    open spec fn view(&self) -> NewUserView {
        NewUserView {
            telegram_id: self.telegram_id,
            username: self.username@,
            tokens: self.tokens,
            referals: self.referals,
            friends: self.friends,
            active_chat: self.active_chat,
        }
    }
}

/// The decoded payload of a request to update a user: a value for each
/// field to change, nothing for each field to keep.
#[derive(Debug, PartialEq, Eq)]
pub struct UpdateUserForm {
    pub telegram_id: Option<i64>,
    pub username: Option<String>,
    pub tokens: Option<i32>,
    pub referals: Option<i32>,
    pub friends: Option<i64>,
    pub active_chat: Option<i32>,
}

/// The mathematical value of an [`UpdateUserForm`].
pub struct UserPatchView {
    pub telegram_id: Option<i64>,
    pub username: Option<Seq<char>>,
    pub tokens: Option<i32>,
    pub referals: Option<i32>,
    pub friends: Option<i64>,
    pub active_chat: Option<i32>,
}

impl View for UpdateUserForm {
    type V = UserPatchView;

    open spec fn view(&self) -> UserPatchView {
        UserPatchView {
            telegram_id: self.telegram_id,
            username: match self.username {
                Some(name) => Some(name@),
                None => None,
            },
            tokens: self.tokens,
            referals: self.referals,
            friends: self.friends,
            active_chat: self.active_chat,
        }
    }
}

/// The value of one field after an update: the supplied one, or else the
/// stored one.
pub open spec fn supplied_or<T>(supplied: Option<T>, stored: T) -> T {
    match supplied {
        Some(value) => value,
        None => stored,
    }
}

impl UserPatchView {
    /// No field is supplied.
    pub open spec fn is_empty(self) -> bool {
        &&& self.telegram_id is None
        &&& self.username is None
        &&& self.tokens is None
        &&& self.referals is None
        &&& self.friends is None
        &&& self.active_chat is None
    }

    /// The row written back when this patch is applied to the user `id`
    /// whose stored row is `current`.
    pub open spec fn merged(self, id: i32, current: UserView) -> UserView {
        UserView {
            id,
            telegram_id: supplied_or(self.telegram_id, current.telegram_id),
            username: supplied_or(self.username, current.username),
            tokens: supplied_or(self.tokens, current.tokens),
            referals: supplied_or(self.referals, current.referals),
            friends: supplied_or(self.friends, current.friends),
            active_chat: supplied_or(self.active_chat, current.active_chat),
        }
    }
}

impl UpdateUserForm {
    /// Builds the row to write back for the user `id`: each field of the
    /// form that is supplied, and the field of `current` where it is not.
    pub fn merged(&self, id: i32, current: &User) -> (row: UpdateUser)
        ensures
            row@ == self@.merged(id, current@),
    {
        UpdateUser {
            id,
            telegram_id: match self.telegram_id {
                Some(value) => value,
                None => current.telegram_id,
            },
            username: match &self.username {
                Some(value) => value.clone(),
                None => current.username.clone(),
            },
            tokens: match self.tokens {
                Some(value) => value,
                None => current.tokens,
            },
            referals: match self.referals {
                Some(value) => value,
                None => current.referals,
            },
            friends: match self.friends {
                Some(value) => value,
                None => current.friends,
            },
            active_chat: match self.active_chat {
                Some(value) => value,
                None => current.active_chat,
            },
        }
    }
}

/// A field that the payload omits keeps its stored value.
pub proof fn law_omitted_fields_are_kept(patch: UserPatchView, id: i32, current: UserView)
    ensures
        patch.telegram_id is None ==> patch.merged(id, current).telegram_id == current.telegram_id,
        patch.username is None ==> patch.merged(id, current).username == current.username,
        patch.tokens is None ==> patch.merged(id, current).tokens == current.tokens,
        patch.referals is None ==> patch.merged(id, current).referals == current.referals,
        patch.friends is None ==> patch.merged(id, current).friends == current.friends,
        patch.active_chat is None ==> patch.merged(id, current).active_chat == current.active_chat,
{
}

/// A field that the payload supplies takes the supplied value, and the
/// `id` is never changed.
pub proof fn law_supplied_fields_are_taken(patch: UserPatchView, id: i32, current: UserView)
    ensures
        patch.merged(id, current).id == id,
        patch.telegram_id matches Some(v) ==> patch.merged(id, current).telegram_id == v,
        patch.username matches Some(v) ==> patch.merged(id, current).username == v,
        patch.tokens matches Some(v) ==> patch.merged(id, current).tokens == v,
        patch.referals matches Some(v) ==> patch.merged(id, current).referals == v,
        patch.friends matches Some(v) ==> patch.merged(id, current).friends == v,
        patch.active_chat matches Some(v) ==> patch.merged(id, current).active_chat == v,
{
}

/// An update that supplies no field writes back the row it read.
pub proof fn law_empty_update_changes_nothing(patch: UserPatchView, current: UserView)
    requires
        patch.is_empty(),
    ensures
        patch.merged(current.id, current) == current,
{
}

/// The answer to a request for a user that is not stored.
pub open spec fn user_not_found() -> ActionView {
    ActionView::Respond(error_response(Status::NotFound, "User not found"@))
}

/// The answer to a request whose username breaks a rule, if it breaks one.
pub open spec fn username_rejection(username: Seq<char>) -> Option<ActionView> {
    match username_error(username) {
        Some(e) => Some(ActionView::Respond(error_response(Status::BadRequest, e.text()))),
        None => None,
    }
}

/// The next action of [`update_user`].
pub open spec fn update_user_next(id: i32, patch: UserPatchView, progress: ProgressView) -> ActionView {
    match progress {
        ProgressView::Start => match patch.username {
            Some(name) => match username_rejection(name) {
                Some(rejection) => rejection,
                None => ActionView::Acquire,
            },
            None => ActionView::Acquire,
        },
        ProgressView::After(ActionView::Acquire, event) => after_acquire(
            event,
            QueryView::FindById(id),
        ),
        ProgressView::After(ActionView::Prepare(QueryView::FindById(q)), event) => after_prepare(
            QueryView::FindById(q),
            event,
        ),
        ProgressView::After(
            ActionView::Run(QueryView::FindById(_)),
            EventView::Users(rows),
        ) => if rows.len() == 0 {
            user_not_found()
        } else {
            ActionView::Prepare(QueryView::Update(patch.merged(id, rows[0])))
        },
        ProgressView::After(
            ActionView::Run(QueryView::FindById(_)),
            EventView::Failed(e),
        ) => storage_failure("Failed to check existing user: "@, e),
        ProgressView::After(ActionView::Prepare(QueryView::Update(row)), event) => after_prepare(
            QueryView::Update(row),
            event,
        ),
        ProgressView::After(
            ActionView::Run(QueryView::Update(_)),
            EventView::Users(rows),
        ) => if rows.len() == 0 {
            ActionView::Abort
        } else {
            ActionView::Respond(
                ResponseView {
                    status: Status::Success,
                    body: BodyView::Updated {
                        message: "User updated successfully"@,
                        user: rows[0],
                    },
                },
            )
        },
        ProgressView::After(
            ActionView::Run(QueryView::Update(_)),
            EventView::Failed(e),
        ) => storage_failure("Failed to update user: "@, e),
        _ => ActionView::Abort,
    }
}

/// The next action of [`create_user`].
pub open spec fn create_user_next(payload: NewUserView, progress: ProgressView) -> ActionView {
    match progress {
        ProgressView::Start => match username_rejection(payload.username) {
            Some(rejection) => rejection,
            None => ActionView::Acquire,
        },
        ProgressView::After(ActionView::Acquire, event) => after_acquire(
            event,
            QueryView::FindByTelegramId(payload.telegram_id),
        ),
        ProgressView::After(
            ActionView::Prepare(QueryView::FindByTelegramId(t)),
            event,
        ) => after_prepare(QueryView::FindByTelegramId(t), event),
        ProgressView::After(
            ActionView::Run(QueryView::FindByTelegramId(_)),
            EventView::Ids(ids),
        ) => if ids.len() > 0 {
            ActionView::Respond(
                error_response(Status::Conflict, "User with this telegram_id already exists"@),
            )
        } else {
            ActionView::Prepare(QueryView::Insert(payload))
        },
        ProgressView::After(
            ActionView::Run(QueryView::FindByTelegramId(_)),
            EventView::Failed(e),
        ) => storage_failure("Failed to check existing users: "@, e),
        ProgressView::After(ActionView::Prepare(QueryView::Insert(row)), event) => after_prepare(
            QueryView::Insert(row),
            event,
        ),
        ProgressView::After(
            ActionView::Run(QueryView::Insert(_)),
            EventView::Ids(ids),
        ) => if ids.len() == 0 {
            ActionView::Abort
        } else {
            ActionView::Respond(
                ResponseView {
                    status: Status::Created,
                    body: BodyView::Created {
                        id: ids[0],
                        message: "User "@ + payload.username + " created successfully"@,
                    },
                },
            )
        },
        ProgressView::After(
            ActionView::Run(QueryView::Insert(_)),
            EventView::Failed(e),
        ) => storage_failure("Failed to create user: "@, e),
        _ => ActionView::Abort,
    }
}

/// The next action of [`get_user`].
pub open spec fn get_user_next(id: i32, progress: ProgressView) -> ActionView {
    match progress {
        ProgressView::Start => ActionView::Acquire,
        ProgressView::After(ActionView::Acquire, event) => after_acquire(
            event,
            QueryView::FindById(id),
        ),
        ProgressView::After(ActionView::Prepare(QueryView::FindById(q)), event) => after_prepare(
            QueryView::FindById(q),
            event,
        ),
        ProgressView::After(
            ActionView::Run(QueryView::FindById(_)),
            EventView::Users(rows),
        ) => if rows.len() == 0 {
            user_not_found()
        } else {
            ActionView::Respond(
                ResponseView { status: Status::Success, body: BodyView::User(rows[0]) },
            )
        },
        ProgressView::After(
            ActionView::Run(QueryView::FindById(_)),
            EventView::Failed(e),
        ) => storage_failure("Failed to fetch user: "@, e),
        _ => ActionView::Abort,
    }
}

/// The next action of [`get_all_users`].
pub open spec fn get_all_users_next(progress: ProgressView) -> ActionView {
    match progress {
        ProgressView::Start => ActionView::Acquire,
        ProgressView::After(ActionView::Acquire, event) => after_acquire(event, QueryView::ListAll),
        ProgressView::After(ActionView::Prepare(QueryView::ListAll), event) => after_prepare(
            QueryView::ListAll,
            event,
        ),
        ProgressView::After(
            ActionView::Run(QueryView::ListAll),
            EventView::Users(rows),
        ) => ActionView::Respond(
            ResponseView { status: Status::Success, body: BodyView::Users(rows) },
        ),
        ProgressView::After(
            ActionView::Run(QueryView::ListAll),
            EventView::Failed(e),
        ) => storage_failure("Failed to fetch users: "@, e),
        _ => ActionView::Abort,
    }
}

/// The next action of [`delete_user`].
pub open spec fn delete_user_next(id: i32, progress: ProgressView) -> ActionView {
    match progress {
        ProgressView::Start => ActionView::Acquire,
        ProgressView::After(ActionView::Acquire, event) => after_acquire(
            event,
            QueryView::ExistsById(id),
        ),
        ProgressView::After(ActionView::Prepare(QueryView::ExistsById(q)), event) => after_prepare(
            QueryView::ExistsById(q),
            event,
        ),
        ProgressView::After(
            ActionView::Run(QueryView::ExistsById(_)),
            EventView::Ids(ids),
        ) => if ids.len() == 0 {
            user_not_found()
        } else {
            ActionView::Prepare(QueryView::DeleteById(id))
        },
        ProgressView::After(
            ActionView::Run(QueryView::ExistsById(_)),
            EventView::Failed(e),
        ) => storage_failure("Failed to check existing user: "@, e),
        ProgressView::After(ActionView::Prepare(QueryView::DeleteById(q)), event) => after_prepare(
            QueryView::DeleteById(q),
            event,
        ),
        ProgressView::After(
            ActionView::Run(QueryView::DeleteById(_)),
            EventView::Affected(count),
        ) => if count == 0 {
            user_not_found()
        } else {
            ActionView::Respond(message_response("User deleted successfully"@))
        },
        ProgressView::After(
            ActionView::Run(QueryView::DeleteById(_)),
            EventView::Failed(e),
        ) => storage_failure("Failed to delete user: "@, e),
        _ => ActionView::Abort,
    }
}

/// The next action of [`delete_all_users`].
pub open spec fn delete_all_users_next(progress: ProgressView) -> ActionView {
    match progress {
        ProgressView::Start => ActionView::Acquire,
        ProgressView::After(ActionView::Acquire, event) => after_acquire(
            event,
            QueryView::DeleteAll,
        ),
        ProgressView::After(ActionView::Prepare(QueryView::DeleteAll), event) => after_prepare(
            QueryView::DeleteAll,
            event,
        ),
        ProgressView::After(
            ActionView::Run(QueryView::DeleteAll),
            EventView::Affected(_),
        ) => ActionView::Respond(message_response("All users deleted successfully"@)),
        ProgressView::After(
            ActionView::Run(QueryView::DeleteAll),
            EventView::Failed(e),
        ) => storage_failure("Failed to delete all users: "@, e),
        _ => ActionView::Abort,
    }
}

/// Rejects the request if its username breaks a rule.
fn reject_username(username: &str) -> (rejection: Option<Action>)
    ensures
        match username_rejection(username@) {
            Some(expected) => rejection matches Some(action) && action@ == expected,
            None => rejection is None,
        },
{
    match validate_username(username) {
        Ok(()) => None,
        Err(reason) => Some(Action::Respond(Response::error(Status::BadRequest, reason))),
    }
}

/// The answer to a request for a user that is not stored.
fn respond_not_found() -> (next: Action)
    ensures
        next@ == user_not_found(),
{
    Action::Respond(Response::error(Status::NotFound, String::from_str("User not found")))
}

/// Handles `POST /user`: stores a new user.
///
/// The username is validated before storage is touched. If a user with the
/// same `telegram_id` is already stored, the answer is status 409 and
/// nothing is inserted. Otherwise the row is inserted and the answer is
/// status 201 with the `id` that storage assigned.
pub fn create_user(payload: &CreateUserForm, progress: Progress) -> (next: Action)
    ensures
        next@ == create_user_next(payload@, progress@),
{
    match progress {
        Progress::Start => match reject_username(payload.username.as_str()) {
            Some(rejection) => rejection,
            None => Action::Acquire,
        },
        Progress::After(Action::Acquire, event) => Action::after_acquire(
            event,
            Query::FindByTelegramId(payload.telegram_id),
        ),
        Progress::After(Action::Prepare(Query::FindByTelegramId(t)), event) => {
            Action::after_prepare(Query::FindByTelegramId(t), event)
        },
        Progress::After(Action::Run(Query::FindByTelegramId(_)), Event::Ids(ids)) => {
            if ids.len() > 0 {
                Action::Respond(
                    Response::error(
                        Status::Conflict,
                        String::from_str("User with this telegram_id already exists"),
                    ),
                )
            } else {
                Action::Prepare(
                    Query::Insert(
                        CreateUser {
                            telegram_id: payload.telegram_id,
                            username: payload.username.clone(),
                            tokens: payload.tokens,
                            referals: payload.referals,
                            friends: payload.friends,
                            active_chat: payload.active_chat,
                        },
                    ),
                )
            }
        },
        Progress::After(Action::Run(Query::FindByTelegramId(_)), Event::Failed(e)) => {
            Action::storage_failure("Failed to check existing users: ", e.as_str())
        },
        Progress::After(Action::Prepare(Query::Insert(row)), event) => Action::after_prepare(
            Query::Insert(row),
            event,
        ),
        Progress::After(Action::Run(Query::Insert(_)), Event::Ids(ids)) => {
            if ids.len() == 0 {
                Action::Abort
            } else {
                let message = String::from_str("User ").concat(payload.username.as_str()).concat(
                    " created successfully",
                );
                Action::Respond(
                    Response { status: Status::Created, body: Body::Created { id: ids[0], message } },
                )
            }
        },
        Progress::After(Action::Run(Query::Insert(_)), Event::Failed(e)) => {
            Action::storage_failure("Failed to create user: ", e.as_str())
        },
        _ => Action::Abort,
    }
}

/// Handles `GET /user/:id`: answers with the user `id`, or with status 404
/// if it is not stored.
pub fn get_user(id: i32, progress: Progress) -> (next: Action)
    ensures
        next@ == get_user_next(id, progress@),
{
    match progress {
        Progress::Start => Action::Acquire,
        Progress::After(Action::Acquire, event) => Action::after_acquire(event, Query::FindById(id)),
        Progress::After(Action::Prepare(Query::FindById(q)), event) => Action::after_prepare(
            Query::FindById(q),
            event,
        ),
        Progress::After(Action::Run(Query::FindById(_)), Event::Users(rows)) => {
            let mut rows = rows;
            if rows.len() == 0 {
                respond_not_found()
            } else {
                let user = rows.remove(0);
                Action::Respond(Response { status: Status::Success, body: Body::User(user) })
            }
        },
        Progress::After(Action::Run(Query::FindById(_)), Event::Failed(e)) => {
            Action::storage_failure("Failed to fetch user: ", e.as_str())
        },
        _ => Action::Abort,
    }
}

/// Handles `GET /users`: answers with every stored user, in the order
/// storage returned them.
pub fn get_all_users(progress: Progress) -> (next: Action)
    ensures
        next@ == get_all_users_next(progress@),
{
    match progress {
        Progress::Start => Action::Acquire,
        Progress::After(Action::Acquire, event) => Action::after_acquire(event, Query::ListAll),
        Progress::After(Action::Prepare(Query::ListAll), event) => Action::after_prepare(
            Query::ListAll,
            event,
        ),
        Progress::After(Action::Run(Query::ListAll), Event::Users(rows)) => Action::Respond(
            Response { status: Status::Success, body: Body::Users(rows) },
        ),
        Progress::After(Action::Run(Query::ListAll), Event::Failed(e)) => {
            Action::storage_failure("Failed to fetch users: ", e.as_str())
        },
        _ => Action::Abort,
    }
}

/// Handles `DELETE /user/:id`: removes the user `id`, or answers with
/// status 404 if it is not stored.
pub fn delete_user(id: i32, progress: Progress) -> (next: Action)
    ensures
        next@ == delete_user_next(id, progress@),
{
    match progress {
        Progress::Start => Action::Acquire,
        Progress::After(Action::Acquire, event) => Action::after_acquire(
            event,
            Query::ExistsById(id),
        ),
        Progress::After(Action::Prepare(Query::ExistsById(q)), event) => Action::after_prepare(
            Query::ExistsById(q),
            event,
        ),
        Progress::After(Action::Run(Query::ExistsById(_)), Event::Ids(ids)) => {
            if ids.len() == 0 {
                respond_not_found()
            } else {
                Action::Prepare(Query::DeleteById(id))
            }
        },
        Progress::After(Action::Run(Query::ExistsById(_)), Event::Failed(e)) => {
            Action::storage_failure("Failed to check existing user: ", e.as_str())
        },
        Progress::After(Action::Prepare(Query::DeleteById(q)), event) => Action::after_prepare(
            Query::DeleteById(q),
            event,
        ),
        Progress::After(Action::Run(Query::DeleteById(_)), Event::Affected(count)) => {
            if count == 0 {
                respond_not_found()
            } else {
                Action::Respond(Response::message("User deleted successfully"))
            }
        },
        Progress::After(Action::Run(Query::DeleteById(_)), Event::Failed(e)) => {
            Action::storage_failure("Failed to delete user: ", e.as_str())
        },
        _ => Action::Abort,
    }
}

/// Handles the removal of every user, which needs no confirmation.
pub fn delete_all_users(progress: Progress) -> (next: Action)
    ensures
        next@ == delete_all_users_next(progress@),
{
    match progress {
        Progress::Start => Action::Acquire,
        Progress::After(Action::Acquire, event) => Action::after_acquire(event, Query::DeleteAll),
        Progress::After(Action::Prepare(Query::DeleteAll), event) => Action::after_prepare(
            Query::DeleteAll,
            event,
        ),
        Progress::After(Action::Run(Query::DeleteAll), Event::Affected(_)) => Action::Respond(
            Response::message("All users deleted successfully"),
        ),
        Progress::After(Action::Run(Query::DeleteAll), Event::Failed(e)) => {
            Action::storage_failure("Failed to delete all users: ", e.as_str())
        },
        _ => Action::Abort,
    }
}

/// Handles `GET /hello/:name`: greets `name`.
pub fn json_hello(name: &str) -> (response: Response)
    ensures
        response@ == message_response("Hello, "@ + name@ + "!"@),
{
    let message = String::from_str("Hello, ").concat(name).concat("!");
    Response { status: Status::Success, body: Body::Message { message } }
}

/// Handles `PUT /user/:id`: changes the supplied fields of the user `id`.
///
/// A supplied username is validated before storage is touched. The stored
/// row is then read, the supplied fields are laid over it, and the whole row
/// is written back; the response carries the row as stored. A user that
/// does not exist is answered with status 404.
pub fn update_user(id: i32, payload: &UpdateUserForm, progress: Progress) -> (next: Action)
    ensures
        next@ == update_user_next(id, payload@, progress@),
{
    match progress {
        Progress::Start => {
            if let Some(name) = &payload.username {
                if let Some(rejection) = reject_username(name.as_str()) {
                    return rejection;
                }
            }
            Action::Acquire
        },
        Progress::After(Action::Acquire, event) => Action::after_acquire(event, Query::FindById(id)),
        Progress::After(Action::Prepare(Query::FindById(q)), event) => Action::after_prepare(
            Query::FindById(q),
            event,
        ),
        Progress::After(Action::Run(Query::FindById(_)), Event::Users(rows)) => {
            if rows.len() == 0 {
                respond_not_found()
            } else {
                Action::Prepare(Query::Update(payload.merged(id, &rows[0])))
            }
        },
        Progress::After(Action::Run(Query::FindById(_)), Event::Failed(e)) => {
            Action::storage_failure("Failed to check existing user: ", e.as_str())
        },
        Progress::After(Action::Prepare(Query::Update(row)), event) => Action::after_prepare(
            Query::Update(row),
            event,
        ),
        Progress::After(Action::Run(Query::Update(_)), Event::Users(rows)) => {
            let mut rows = rows;
            if rows.len() == 0 {
                Action::Abort
            } else {
                let user = rows.remove(0);
                Action::Respond(
                    Response {
                        status: Status::Success,
                        body: Body::Updated {
                            message: String::from_str("User updated successfully"),
                            user,
                        },
                    },
                )
            }
        },
        Progress::After(Action::Run(Query::Update(_)), Event::Failed(e)) => {
            Action::storage_failure("Failed to update user: ", e.as_str())
        },
        _ => Action::Abort,
    }
}

} // verus!
