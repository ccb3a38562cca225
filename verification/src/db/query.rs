//! The statements the service runs against the `users` table, each with the
//! values bound to its placeholders.

use crate::models::user::{CreateUser, NewUserView, UpdateUser, UserView};
use vstd::prelude::*;

verus! {

/// A value bound to a placeholder of a statement.
#[derive(Debug, PartialEq, Eq)]
pub enum SqlValue {
    /// A 32-bit integer (`INT`).
    Int(i32),
    /// A 64-bit integer (`BIGINT`).
    BigInt(i64),
    /// A string (`VARCHAR`).
    Text(String),
}

/// The mathematical value of a [`SqlValue`].
pub enum SqlValueView {
    Int(i32),
    BigInt(i64),
    Text(Seq<char>),
}

impl View for SqlValue {
    type V = SqlValueView;

    open spec fn view(&self) -> SqlValueView {
        match *self {
            SqlValue::Int(v) => SqlValueView::Int(v),
            SqlValue::BigInt(v) => SqlValueView::BigInt(v),
            SqlValue::Text(v) => SqlValueView::Text(v@),
        }
    }
}

/// A list of bound values as mathematical values, in placeholder order.
pub open spec fn value_views(values: Seq<SqlValue>) -> Seq<SqlValueView> {
    values.map_values(|v: SqlValue| v@)
}

/// What a statement hands back when it is run.
#[derive(Clone, Copy, Debug, PartialEq, Eq, Structural)]
pub enum ReplyKind {
    /// Rows of one column, `id`.
    Ids,
    /// Rows of all seven columns of a user.
    Users,
    /// No rows, only the number of rows changed.
    Affected,
}

/// A statement together with the values for its placeholders.
#[derive(Debug, PartialEq, Eq)]
pub enum Query {
    /// The ids of the users with this `telegram_id`.
    FindByTelegramId(i64),
    /// Insert a row; hands back the `id` storage assigned.
    Insert(CreateUser),
    /// The user with this `id`.
    FindById(i32),
    /// Every user, in no particular order.
    ListAll,
    /// Overwrite every column of the row with this row's `id`; hands back
    /// the row as stored.
    Update(UpdateUser),
    /// The `id` of the user with this `id`, to learn whether it exists.
    ExistsById(i32),
    /// Delete the user with this `id`.
    DeleteById(i32),
    /// Delete every user.
    DeleteAll,
}

/// The mathematical value of a [`Query`].
pub enum QueryView {
    FindByTelegramId(i64),
    Insert(NewUserView),
    FindById(i32),
    ListAll,
    Update(UserView),
    ExistsById(i32),
    DeleteById(i32),
    DeleteAll,
}

impl View for Query {
    type V = QueryView;

    open spec fn view(&self) -> QueryView {
        match *self {
            Query::FindByTelegramId(t) => QueryView::FindByTelegramId(t),
            Query::Insert(row) => QueryView::Insert(row@),
            Query::FindById(id) => QueryView::FindById(id),
            Query::ListAll => QueryView::ListAll,
            Query::Update(row) => QueryView::Update(row@),
            Query::ExistsById(id) => QueryView::ExistsById(id),
            Query::DeleteById(id) => QueryView::DeleteById(id),
            Query::DeleteAll => QueryView::DeleteAll,
        }
    }
}

impl QueryView {
    /// The text of the statement, with `$1`, `$2`, .. for the bound values.
    pub open spec fn sql(self) -> Seq<char> {
        match self {
            QueryView::FindByTelegramId(_) => "SELECT id FROM users WHERE telegram_id = $1"@,
            QueryView::Insert(_) =>
                "INSERT INTO users (telegram_id, username, tokens, referals, friends, active_chat) VALUES ($1, $2, $3, $4, $5, $6) RETURNING id"@,
            QueryView::FindById(_) =>
                "SELECT id, telegram_id, username, tokens, referals, friends, active_chat FROM users WHERE id = $1"@,
            QueryView::ListAll =>
                "SELECT id, telegram_id, username, tokens, referals, friends, active_chat FROM users"@,
            QueryView::Update(_) =>
                "UPDATE users SET telegram_id = $1, username = $2, tokens = $3, referals = $4, friends = $5, active_chat = $6 WHERE id = $7 RETURNING id, telegram_id, username, tokens, referals, friends, active_chat"@,
            QueryView::ExistsById(_) => "SELECT id FROM users WHERE id = $1"@,
            QueryView::DeleteById(_) => "DELETE FROM users WHERE id = $1"@,
            QueryView::DeleteAll => "DELETE FROM users"@,
        }
    }

    /// The bound values: element `i` belongs to placeholder `$i+1`.
    pub open spec fn params(self) -> Seq<SqlValueView> {
        match self {
            QueryView::FindByTelegramId(t) => seq![SqlValueView::BigInt(t)],
            QueryView::Insert(row) => seq![
                SqlValueView::BigInt(row.telegram_id),
                SqlValueView::Text(row.username),
                SqlValueView::Int(row.tokens),
                SqlValueView::Int(row.referals),
                SqlValueView::BigInt(row.friends),
                SqlValueView::Int(row.active_chat),
            ],
            QueryView::FindById(id) => seq![SqlValueView::Int(id)],
            QueryView::ListAll => seq![],
            QueryView::Update(row) => seq![
                SqlValueView::BigInt(row.telegram_id),
                SqlValueView::Text(row.username),
                SqlValueView::Int(row.tokens),
                SqlValueView::Int(row.referals),
                SqlValueView::BigInt(row.friends),
                SqlValueView::Int(row.active_chat),
                SqlValueView::Int(row.id),
            ],
            QueryView::ExistsById(id) => seq![SqlValueView::Int(id)],
            QueryView::DeleteById(id) => seq![SqlValueView::Int(id)],
            QueryView::DeleteAll => seq![],
        }
    }

    /// What running the statement hands back.
    pub open spec fn reply_kind(self) -> ReplyKind {
        match self {
            QueryView::FindByTelegramId(_) | QueryView::Insert(_) | QueryView::ExistsById(_) =>
                ReplyKind::Ids,
            QueryView::FindById(_) | QueryView::ListAll | QueryView::Update(_) => ReplyKind::Users,
            QueryView::DeleteById(_) | QueryView::DeleteAll => ReplyKind::Affected,
        }
    }
}

impl Query {
    /// The text of the statement, with `$1`, `$2`, .. for the bound values.
    pub fn sql(&self) -> (text: &'static str)
        ensures
            text@ == self@.sql(),
    {
        match self {
            Query::FindByTelegramId(_) => "SELECT id FROM users WHERE telegram_id = $1",
            Query::Insert(_) =>
                "INSERT INTO users (telegram_id, username, tokens, referals, friends, active_chat) VALUES ($1, $2, $3, $4, $5, $6) RETURNING id",
            Query::FindById(_) =>
                "SELECT id, telegram_id, username, tokens, referals, friends, active_chat FROM users WHERE id = $1",
            Query::ListAll =>
                "SELECT id, telegram_id, username, tokens, referals, friends, active_chat FROM users",
            Query::Update(_) =>
                "UPDATE users SET telegram_id = $1, username = $2, tokens = $3, referals = $4, friends = $5, active_chat = $6 WHERE id = $7 RETURNING id, telegram_id, username, tokens, referals, friends, active_chat",
            Query::ExistsById(_) => "SELECT id FROM users WHERE id = $1",
            Query::DeleteById(_) => "DELETE FROM users WHERE id = $1",
            Query::DeleteAll => "DELETE FROM users",
        }
    }

    /// The bound values, in placeholder order.
    pub fn params(&self) -> (values: Vec<SqlValue>)
        ensures
            value_views(values@) == self@.params(),
    {
        let mut values: Vec<SqlValue> = Vec::new();
        match self {
            Query::FindByTelegramId(t) => {
                values.push(SqlValue::BigInt(*t));
            },
            Query::Insert(row) => {
                values.push(SqlValue::BigInt(row.telegram_id));
                values.push(SqlValue::Text(row.username.clone()));
                values.push(SqlValue::Int(row.tokens));
                values.push(SqlValue::Int(row.referals));
                values.push(SqlValue::BigInt(row.friends));
                values.push(SqlValue::Int(row.active_chat));
            },
            Query::FindById(id) => {
                values.push(SqlValue::Int(*id));
            },
            Query::ListAll => {},
            Query::Update(row) => {
                values.push(SqlValue::BigInt(row.telegram_id));
                values.push(SqlValue::Text(row.username.clone()));
                values.push(SqlValue::Int(row.tokens));
                values.push(SqlValue::Int(row.referals));
                values.push(SqlValue::BigInt(row.friends));
                values.push(SqlValue::Int(row.active_chat));
                values.push(SqlValue::Int(row.id));
            },
            Query::ExistsById(id) => {
                values.push(SqlValue::Int(*id));
            },
            Query::DeleteById(id) => {
                values.push(SqlValue::Int(*id));
            },
            Query::DeleteAll => {},
        }
        assert(value_views(values@) =~= self@.params());
        values
    }

    /// What running the statement hands back.
    pub fn reply_kind(&self) -> (kind: ReplyKind)
        ensures
            kind == self@.reply_kind(),
    {
        match self {
            Query::FindByTelegramId(_) | Query::Insert(_) | Query::ExistsById(_) => ReplyKind::Ids,
            Query::FindById(_) | Query::ListAll | Query::Update(_) => ReplyKind::Users,
            Query::DeleteById(_) | Query::DeleteAll => ReplyKind::Affected,
        }
    }
}

} // verus!
