use user_service::db::query::Query;
use user_service::flow::{Action, Event, Progress};
use user_service::handlers::user::{
    create_user, delete_all_users, delete_user, get_all_users, get_user, update_user,
    CreateUserForm, UpdateUserForm,
};
use user_service::models::user::{CreateUser, UpdateUser, User};
use user_service::response::{Body, Response, Status};

fn bob_form() -> CreateUserForm {
    CreateUserForm {
        telegram_id: 1,
        username: "Bob".to_string(),
        tokens: 0,
        referals: 0,
        friends: 0,
        active_chat: 0,
    }
}

fn bob_row() -> CreateUser {
    CreateUser {
        telegram_id: 1,
        username: "Bob".to_string(),
        tokens: 0,
        referals: 0,
        friends: 0,
        active_chat: 0,
    }
}

fn alice(id: i32) -> User {
    User {
        id,
        telegram_id: 42,
        username: "Alice".to_string(),
        tokens: 3,
        referals: 4,
        friends: 5,
        active_chat: 6,
    }
}

fn no_change() -> UpdateUserForm {
    UpdateUserForm {
        telegram_id: None,
        username: None,
        tokens: None,
        referals: None,
        friends: None,
        active_chat: None,
    }
}

fn failure(status: Status, error: &str) -> Action {
    Action::Respond(Response { status, body: Body::Error { error: error.to_string() } })
}

fn failed(text: &str) -> Event {
    Event::Failed(text.to_string())
}

#[test]
fn create_validates_before_touching_storage() {
    let form = CreateUserForm { username: "1bob".to_string(), ..bob_form() };
    assert_eq!(
        create_user(&form, Progress::Start),
        failure(Status::BadRequest, "The first character must be a letter")
    );
    let form = CreateUserForm { username: String::new(), ..bob_form() };
    assert_eq!(
        create_user(&form, Progress::Start),
        failure(Status::BadRequest, "Username cannot be empty")
    );
    let form = CreateUserForm { username: "averylongname".to_string(), ..bob_form() };
    assert_eq!(
        create_user(&form, Progress::Start),
        failure(Status::BadRequest, "Username cannot be longer than 11 characters")
    );
    let form = CreateUserForm { username: "bo$b".to_string(), ..bob_form() };
    assert_eq!(
        create_user(&form, Progress::Start),
        failure(
            Status::BadRequest,
            "Username can only contain letters, digits, and special characters (_-')"
        )
    );
}

#[test]
fn create_walks_through_check_and_insert() {
    let form = bob_form();
    assert_eq!(create_user(&form, Progress::Start), Action::Acquire);
    assert_eq!(
        create_user(&form, Progress::After(Action::Acquire, Event::Connected)),
        Action::Prepare(Query::FindByTelegramId(1))
    );
    assert_eq!(
        create_user(
            &form,
            Progress::After(Action::Prepare(Query::FindByTelegramId(1)), Event::Prepared)
        ),
        Action::Run(Query::FindByTelegramId(1))
    );
    assert_eq!(
        create_user(
            &form,
            Progress::After(Action::Run(Query::FindByTelegramId(1)), Event::Ids(vec![]))
        ),
        Action::Prepare(Query::Insert(bob_row()))
    );
    assert_eq!(
        create_user(
            &form,
            Progress::After(Action::Prepare(Query::Insert(bob_row())), Event::Prepared)
        ),
        Action::Run(Query::Insert(bob_row()))
    );
    assert_eq!(
        create_user(
            &form,
            Progress::After(Action::Run(Query::Insert(bob_row())), Event::Ids(vec![17]))
        ),
        Action::Respond(Response {
            status: Status::Created,
            body: Body::Created { id: 17, message: "User Bob created successfully".to_string() },
        })
    );
}

#[test]
fn create_conflicts_on_a_known_telegram_id() {
    let form = bob_form();
    assert_eq!(
        create_user(
            &form,
            Progress::After(Action::Run(Query::FindByTelegramId(1)), Event::Ids(vec![5]))
        ),
        failure(Status::Conflict, "User with this telegram_id already exists")
    );
    assert_eq!(
        create_user(
            &form,
            Progress::After(Action::Run(Query::FindByTelegramId(1)), Event::Ids(vec![5, 6]))
        ),
        failure(Status::Conflict, "User with this telegram_id already exists")
    );
}

#[test]
fn create_reports_each_storage_failure() {
    let form = bob_form();
    assert_eq!(
        create_user(&form, Progress::After(Action::Acquire, failed("pool closed"))),
        failure(Status::InternalServerError, "Failed to get client: pool closed")
    );
    assert_eq!(
        create_user(
            &form,
            Progress::After(Action::Prepare(Query::FindByTelegramId(1)), failed("syntax"))
        ),
        failure(Status::InternalServerError, "Failed to prepare statement: syntax")
    );
    assert_eq!(
        create_user(
            &form,
            Progress::After(Action::Run(Query::FindByTelegramId(1)), failed("db error"))
        ),
        failure(Status::InternalServerError, "Failed to check existing users: db error")
    );
    assert_eq!(
        create_user(&form, Progress::After(Action::Prepare(Query::Insert(bob_row())), failed("x"))),
        failure(Status::InternalServerError, "Failed to prepare statement: x")
    );
    assert_eq!(
        create_user(&form, Progress::After(Action::Run(Query::Insert(bob_row())), failed("x"))),
        failure(Status::InternalServerError, "Failed to create user: x")
    );
}

#[test]
fn create_aborts_when_the_insert_returns_no_row() {
    assert_eq!(
        create_user(
            &bob_form(),
            Progress::After(Action::Run(Query::Insert(bob_row())), Event::Ids(vec![]))
        ),
        Action::Abort
    );
}

#[test]
fn get_walks_through_the_lookup() {
    assert_eq!(get_user(7, Progress::Start), Action::Acquire);
    assert_eq!(
        get_user(7, Progress::After(Action::Acquire, Event::Connected)),
        Action::Prepare(Query::FindById(7))
    );
    assert_eq!(
        get_user(7, Progress::After(Action::Prepare(Query::FindById(7)), Event::Prepared)),
        Action::Run(Query::FindById(7))
    );
    assert_eq!(
        get_user(7, Progress::After(Action::Run(Query::FindById(7)), Event::Users(vec![alice(7)]))),
        Action::Respond(Response { status: Status::Success, body: Body::User(alice(7)) })
    );
}

#[test]
fn get_of_a_missing_user_is_not_found() {
    assert_eq!(
        get_user(7, Progress::After(Action::Run(Query::FindById(7)), Event::Users(vec![]))),
        failure(Status::NotFound, "User not found")
    );
}

#[test]
fn get_reports_each_storage_failure() {
    assert_eq!(
        get_user(7, Progress::After(Action::Acquire, failed("a"))),
        failure(Status::InternalServerError, "Failed to get client: a")
    );
    assert_eq!(
        get_user(7, Progress::After(Action::Prepare(Query::FindById(7)), failed("b"))),
        failure(Status::InternalServerError, "Failed to prepare statement: b")
    );
    assert_eq!(
        get_user(7, Progress::After(Action::Run(Query::FindById(7)), failed("c"))),
        failure(Status::InternalServerError, "Failed to fetch user: c")
    );
}

#[test]
fn list_answers_with_the_rows_in_order() {
    assert_eq!(get_all_users(Progress::Start), Action::Acquire);
    assert_eq!(
        get_all_users(Progress::After(Action::Acquire, Event::Connected)),
        Action::Prepare(Query::ListAll)
    );
    assert_eq!(
        get_all_users(Progress::After(Action::Prepare(Query::ListAll), Event::Prepared)),
        Action::Run(Query::ListAll)
    );
    assert_eq!(
        get_all_users(Progress::After(
            Action::Run(Query::ListAll),
            Event::Users(vec![alice(2), alice(1)])
        )),
        Action::Respond(Response {
            status: Status::Success,
            body: Body::Users(vec![alice(2), alice(1)]),
        })
    );
    assert_eq!(
        get_all_users(Progress::After(Action::Run(Query::ListAll), Event::Users(vec![]))),
        Action::Respond(Response { status: Status::Success, body: Body::Users(vec![]) })
    );
}

#[test]
fn list_reports_each_storage_failure() {
    assert_eq!(
        get_all_users(Progress::After(Action::Acquire, failed("a"))),
        failure(Status::InternalServerError, "Failed to get client: a")
    );
    assert_eq!(
        get_all_users(Progress::After(Action::Prepare(Query::ListAll), failed("b"))),
        failure(Status::InternalServerError, "Failed to prepare statement: b")
    );
    assert_eq!(
        get_all_users(Progress::After(Action::Run(Query::ListAll), failed("c"))),
        failure(Status::InternalServerError, "Failed to fetch users: c")
    );
}

#[test]
fn update_validates_a_supplied_username() {
    let form = UpdateUserForm { username: Some("9lives".to_string()), ..no_change() };
    assert_eq!(
        update_user(3, &form, Progress::Start),
        failure(Status::BadRequest, "The first character must be a letter")
    );
    let form = UpdateUserForm { username: Some("Carol".to_string()), ..no_change() };
    assert_eq!(update_user(3, &form, Progress::Start), Action::Acquire);
    assert_eq!(update_user(3, &no_change(), Progress::Start), Action::Acquire);
}

#[test]
fn update_walks_through_lookup_and_write() {
    let form = UpdateUserForm { tokens: Some(5), ..no_change() };
    let merged = UpdateUser {
        id: 3,
        telegram_id: 42,
        username: "Alice".to_string(),
        tokens: 5,
        referals: 4,
        friends: 5,
        active_chat: 6,
    };
    let written = User { tokens: 5, ..alice(3) };
    assert_eq!(
        update_user(3, &form, Progress::After(Action::Acquire, Event::Connected)),
        Action::Prepare(Query::FindById(3))
    );
    assert_eq!(
        update_user(3, &form, Progress::After(Action::Prepare(Query::FindById(3)), Event::Prepared)),
        Action::Run(Query::FindById(3))
    );
    assert_eq!(
        update_user(
            3,
            &form,
            Progress::After(Action::Run(Query::FindById(3)), Event::Users(vec![alice(3)]))
        ),
        Action::Prepare(Query::Update(UpdateUser { ..merged_copy(&merged) }))
    );
    assert_eq!(
        update_user(
            3,
            &form,
            Progress::After(Action::Prepare(Query::Update(merged_copy(&merged))), Event::Prepared)
        ),
        Action::Run(Query::Update(merged_copy(&merged)))
    );
    assert_eq!(
        update_user(
            3,
            &form,
            Progress::After(Action::Run(Query::Update(merged)), Event::Users(vec![written]))
        ),
        Action::Respond(Response {
            status: Status::Success,
            body: Body::Updated {
                message: "User updated successfully".to_string(),
                user: User { tokens: 5, ..alice(3) },
            },
        })
    );
}

fn merged_copy(row: &UpdateUser) -> UpdateUser {
    UpdateUser {
        id: row.id,
        telegram_id: row.telegram_id,
        username: row.username.clone(),
        tokens: row.tokens,
        referals: row.referals,
        friends: row.friends,
        active_chat: row.active_chat,
    }
}

#[test]
fn update_of_a_missing_user_is_not_found() {
    assert_eq!(
        update_user(
            3,
            &no_change(),
            Progress::After(Action::Run(Query::FindById(3)), Event::Users(vec![]))
        ),
        failure(Status::NotFound, "User not found")
    );
}

#[test]
fn update_merges_every_field() {
    let everything = UpdateUserForm {
        telegram_id: Some(100),
        username: Some("Zed".to_string()),
        tokens: Some(101),
        referals: Some(102),
        friends: Some(103),
        active_chat: Some(104),
    };
    assert_eq!(
        everything.merged(3, &alice(3)),
        UpdateUser {
            id: 3,
            telegram_id: 100,
            username: "Zed".to_string(),
            tokens: 101,
            referals: 102,
            friends: 103,
            active_chat: 104,
        }
    );
    assert_eq!(
        no_change().merged(3, &alice(3)),
        UpdateUser {
            id: 3,
            telegram_id: 42,
            username: "Alice".to_string(),
            tokens: 3,
            referals: 4,
            friends: 5,
            active_chat: 6,
        }
    );
    let name_only = UpdateUserForm { username: Some("Al".to_string()), ..no_change() };
    assert_eq!(
        name_only.merged(8, &alice(3)),
        UpdateUser {
            id: 8,
            telegram_id: 42,
            username: "Al".to_string(),
            tokens: 3,
            referals: 4,
            friends: 5,
            active_chat: 6,
        }
    );
}

#[test]
fn update_reports_each_storage_failure() {
    let form = no_change();
    let row = no_change().merged(3, &alice(3));
    assert_eq!(
        update_user(3, &form, Progress::After(Action::Acquire, failed("a"))),
        failure(Status::InternalServerError, "Failed to get client: a")
    );
    assert_eq!(
        update_user(3, &form, Progress::After(Action::Prepare(Query::FindById(3)), failed("b"))),
        failure(Status::InternalServerError, "Failed to prepare statement: b")
    );
    assert_eq!(
        update_user(3, &form, Progress::After(Action::Run(Query::FindById(3)), failed("c"))),
        failure(Status::InternalServerError, "Failed to check existing user: c")
    );
    assert_eq!(
        update_user(
            3,
            &form,
            Progress::After(Action::Prepare(Query::Update(merged_copy(&row))), failed("d"))
        ),
        failure(Status::InternalServerError, "Failed to prepare statement: d")
    );
    assert_eq!(
        update_user(3, &form, Progress::After(Action::Run(Query::Update(row)), failed("e"))),
        failure(Status::InternalServerError, "Failed to update user: e")
    );
}

#[test]
fn update_aborts_when_the_write_returns_no_row() {
    let row = no_change().merged(3, &alice(3));
    assert_eq!(
        update_user(
            3,
            &no_change(),
            Progress::After(Action::Run(Query::Update(row)), Event::Users(vec![]))
        ),
        Action::Abort
    );
}

#[test]
fn delete_walks_through_check_and_removal() {
    assert_eq!(delete_user(4, Progress::Start), Action::Acquire);
    assert_eq!(
        delete_user(4, Progress::After(Action::Acquire, Event::Connected)),
        Action::Prepare(Query::ExistsById(4))
    );
    assert_eq!(
        delete_user(4, Progress::After(Action::Prepare(Query::ExistsById(4)), Event::Prepared)),
        Action::Run(Query::ExistsById(4))
    );
    assert_eq!(
        delete_user(4, Progress::After(Action::Run(Query::ExistsById(4)), Event::Ids(vec![4]))),
        Action::Prepare(Query::DeleteById(4))
    );
    assert_eq!(
        delete_user(4, Progress::After(Action::Prepare(Query::DeleteById(4)), Event::Prepared)),
        Action::Run(Query::DeleteById(4))
    );
    assert_eq!(
        delete_user(4, Progress::After(Action::Run(Query::DeleteById(4)), Event::Affected(1))),
        Action::Respond(Response {
            status: Status::Success,
            body: Body::Message { message: "User deleted successfully".to_string() },
        })
    );
}

#[test]
fn delete_of_a_missing_user_is_not_found() {
    assert_eq!(
        delete_user(4, Progress::After(Action::Run(Query::ExistsById(4)), Event::Ids(vec![]))),
        failure(Status::NotFound, "User not found")
    );
    assert_eq!(
        delete_user(4, Progress::After(Action::Run(Query::DeleteById(4)), Event::Affected(0))),
        failure(Status::NotFound, "User not found")
    );
}

#[test]
fn delete_reports_each_storage_failure() {
    assert_eq!(
        delete_user(4, Progress::After(Action::Acquire, failed("a"))),
        failure(Status::InternalServerError, "Failed to get client: a")
    );
    assert_eq!(
        delete_user(4, Progress::After(Action::Prepare(Query::ExistsById(4)), failed("b"))),
        failure(Status::InternalServerError, "Failed to prepare statement: b")
    );
    assert_eq!(
        delete_user(4, Progress::After(Action::Run(Query::ExistsById(4)), failed("c"))),
        failure(Status::InternalServerError, "Failed to check existing user: c")
    );
    assert_eq!(
        delete_user(4, Progress::After(Action::Prepare(Query::DeleteById(4)), failed("d"))),
        failure(Status::InternalServerError, "Failed to prepare statement: d")
    );
    assert_eq!(
        delete_user(4, Progress::After(Action::Run(Query::DeleteById(4)), failed("e"))),
        failure(Status::InternalServerError, "Failed to delete user: e")
    );
}

#[test]
fn delete_all_needs_no_confirmation() {
    assert_eq!(delete_all_users(Progress::Start), Action::Acquire);
    assert_eq!(
        delete_all_users(Progress::After(Action::Acquire, Event::Connected)),
        Action::Prepare(Query::DeleteAll)
    );
    assert_eq!(
        delete_all_users(Progress::After(Action::Prepare(Query::DeleteAll), Event::Prepared)),
        Action::Run(Query::DeleteAll)
    );
    for count in [0, 1, 1000] {
        assert_eq!(
            delete_all_users(Progress::After(Action::Run(Query::DeleteAll), Event::Affected(count))),
            Action::Respond(Response {
                status: Status::Success,
                body: Body::Message { message: "All users deleted successfully".to_string() },
            })
        );
    }
}

#[test]
fn delete_all_reports_each_storage_failure() {
    assert_eq!(
        delete_all_users(Progress::After(Action::Acquire, failed("a"))),
        failure(Status::InternalServerError, "Failed to get client: a")
    );
    assert_eq!(
        delete_all_users(Progress::After(Action::Prepare(Query::DeleteAll), failed("b"))),
        failure(Status::InternalServerError, "Failed to prepare statement: b")
    );
    assert_eq!(
        delete_all_users(Progress::After(Action::Run(Query::DeleteAll), failed("c"))),
        failure(Status::InternalServerError, "Failed to delete all users: c")
    );
}

#[test]
fn events_that_answer_nothing_abort() {
    assert_eq!(get_user(1, Progress::After(Action::Acquire, Event::Prepared)), Action::Abort);
    assert_eq!(
        get_user(1, Progress::After(Action::Prepare(Query::FindById(1)), Event::Connected)),
        Action::Abort
    );
    assert_eq!(
        get_user(1, Progress::After(Action::Run(Query::FindById(1)), Event::Affected(1))),
        Action::Abort
    );
    assert_eq!(get_user(1, Progress::After(Action::Abort, Event::Connected)), Action::Abort);
    let answered = Action::Respond(Response::message("done"));
    assert_eq!(delete_all_users(Progress::After(answered, Event::Connected)), Action::Abort);
}

#[test]
fn statements_of_other_handlers_abort() {
    assert_eq!(
        get_user(1, Progress::After(Action::Prepare(Query::DeleteAll), Event::Prepared)),
        Action::Abort
    );
    assert_eq!(
        create_user(&bob_form(), Progress::After(Action::Run(Query::DeleteAll), Event::Affected(3))),
        Action::Abort
    );
    assert_eq!(
        get_all_users(Progress::After(Action::Run(Query::FindById(1)), Event::Users(vec![]))),
        Action::Abort
    );
    assert_eq!(
        delete_user(1, Progress::After(Action::Run(Query::DeleteAll), Event::Affected(3))),
        Action::Abort
    );
    assert_eq!(
        delete_all_users(Progress::After(Action::Run(Query::DeleteById(1)), Event::Affected(1))),
        Action::Abort
    );
    assert_eq!(
        update_user(
            1,
            &no_change(),
            Progress::After(Action::Run(Query::ListAll), Event::Users(vec![]))
        ),
        Action::Abort
    );
}
