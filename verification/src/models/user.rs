//! The user entity and the two row shapes written to storage.

use vstd::prelude::*;

verus! {

/// A stored user, as read back from the `users` table.
#[derive(Debug, PartialEq, Eq)]
pub struct User {
    pub id: i32,
    pub telegram_id: i64,
    pub username: String,
    pub tokens: i32,
    pub referals: i32,
    pub friends: i64,
    pub active_chat: i32,
}

/// The values of a row to insert; storage assigns the `id`.
#[derive(Debug, PartialEq, Eq)]
pub struct CreateUser {
    pub telegram_id: i64,
    pub username: String,
    pub tokens: i32,
    pub referals: i32,
    pub friends: i64,
    pub active_chat: i32,
}

/// The full row written back by an update of the user `id`.
#[derive(Debug, PartialEq, Eq)]
pub struct UpdateUser {
    pub id: i32,
    pub telegram_id: i64,
    pub username: String,
    pub tokens: i32,
    pub referals: i32,
    pub friends: i64,
    pub active_chat: i32,
}

/// The mathematical value of a full row: the view of [`User`] and of
/// [`UpdateUser`].
pub struct UserView {
    pub id: i32,
    pub telegram_id: i64,
    pub username: Seq<char>,
    pub tokens: i32,
    pub referals: i32,
    pub friends: i64,
    pub active_chat: i32,
}

/// The mathematical value of a row without its `id`: the view of
/// [`CreateUser`].
pub struct NewUserView {
    pub telegram_id: i64,
    pub username: Seq<char>,
    pub tokens: i32,
    pub referals: i32,
    pub friends: i64,
    pub active_chat: i32,
}

impl NewUserView {
    /// The full row that results when storage assigns `id` to these values.
    pub open spec fn with_id(self, id: i32) -> UserView {
        UserView {
            id,
            telegram_id: self.telegram_id,
            username: self.username,
            tokens: self.tokens,
            referals: self.referals,
            friends: self.friends,
            active_chat: self.active_chat,
        }
    }
}

impl View for User {
    type V = UserView;

    open spec fn view(&self) -> UserView {
        UserView {
            id: self.id,
            telegram_id: self.telegram_id,
            username: self.username@,
            tokens: self.tokens,
            referals: self.referals,
            friends: self.friends,
            active_chat: self.active_chat,
        }
    }
}

impl View for CreateUser {
    type V = NewUserView;

    open spec fn view(&self) -> NewUserView {
        NewUserView {
            telegram_id: self.telegram_id,
            username: self.username@,
            tokens: self.tokens,
            referals: self.referals,
            friends: self.friends,
            active_chat: self.active_chat,
        }
    }
}

impl View for UpdateUser {
    type V = UserView;

    open spec fn view(&self) -> UserView {
        UserView {
            id: self.id,
            telegram_id: self.telegram_id,
            username: self.username@,
            tokens: self.tokens,
            referals: self.referals,
            friends: self.friends,
            active_chat: self.active_chat,
        }
    }
}

/// The rows of a result set as mathematical values, in the order received.
pub open spec fn user_views(users: Seq<User>) -> Seq<UserView> {
    users.map_values(|u: User| u@)
}

} // verus!
