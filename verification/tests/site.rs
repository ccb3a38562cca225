use user_service::handlers::site::{
    handle_file_error, health_check, root, HEALTHY, PAGE_HEAD, PAGE_TAIL, UNREACHABLE,
};
use user_service::handlers::user::json_hello;
use user_service::response::{Body, Response, Status};

#[test]
fn health_sentences() {
    assert_eq!(health_check(true), "Database connection is healthy");
    assert_eq!(health_check(false), "Failed to connect to the database");
    assert_eq!(HEALTHY, "Database connection is healthy");
    assert_eq!(UNREACHABLE, "Failed to connect to the database");
}

#[test]
fn landing_page_when_storage_is_reachable() {
    let expected = "<html><head></head>
            <body style='background-color: black; color: white; text-align: center;'>
                <div style='display: inline-block; border: 2px solid white; padding: 20px;'>
                    <div style='border-bottom: 2px solid white; padding-bottom: 10px;'>
                        <span style='font-weight: bold;'>Welcome to the LoungeCode Server!</span>
                    </div>
                    <div style='border-bottom: 2px solid white; padding: 10px 0;'>
                        <span>Database connection is healthy</span>
                    </div>
                    <div style='padding-top: 10px;'>
                        <span>Visit <a href=\"http://127.0.0.1:3000/user\" style='color: lightblue;'>User Management</a></span>
                    </div>
                </div>
            </body></html>";
    assert_eq!(
        root(true),
        Response { status: Status::Success, body: Body::Html(expected.to_string()) }
    );
}

#[test]
fn landing_page_when_storage_is_unreachable() {
    let page = match root(false) {
        Response { status: Status::Success, body: Body::Html(page) } => page,
        other => panic!("unexpected response {:?}", other),
    };
    assert_eq!(page, format!("{}{}{}", PAGE_HEAD, "Failed to connect to the database", PAGE_TAIL));
    assert!(page.contains("<span>Failed to connect to the database</span>"));
    assert!(!page.contains("healthy"));
    assert!(page.starts_with("<html><head></head>\n            <body"));
    assert!(page.ends_with("</body></html>"));
}

#[test]
fn file_errors_are_internal_errors() {
    assert_eq!(
        handle_file_error("No such file or directory (os error 2)"),
        Response {
            status: Status::InternalServerError,
            body: Body::Text(
                "Unhandled internal error: No such file or directory (os error 2)".to_string()
            ),
        }
    );
}

#[test]
fn hello_greets_by_name() {
    assert_eq!(
        json_hello("World"),
        Response {
            status: Status::Success,
            body: Body::Message { message: "Hello, World!".to_string() },
        }
    );
    assert_eq!(
        json_hello(""),
        Response { status: Status::Success, body: Body::Message { message: "Hello, !".to_string() } }
    );
}

#[test]
fn status_codes() {
    assert_eq!(Status::Success.code(), 200);
    assert_eq!(Status::Created.code(), 201);
    assert_eq!(Status::BadRequest.code(), 400);
    assert_eq!(Status::NotFound.code(), 404);
    assert_eq!(Status::Conflict.code(), 409);
    assert_eq!(Status::InternalServerError.code(), 500);
}

#[test]
fn response_builders() {
    assert_eq!(
        Response::error(Status::NotFound, "gone".to_string()),
        Response { status: Status::NotFound, body: Body::Error { error: "gone".to_string() } }
    );
    assert_eq!(
        Response::storage_failure("Failed to get client: ", "timeout"),
        Response {
            status: Status::InternalServerError,
            body: Body::Error { error: "Failed to get client: timeout".to_string() },
        }
    );
    assert_eq!(
        Response::message("done"),
        Response { status: Status::Success, body: Body::Message { message: "done".to_string() } }
    );
}
