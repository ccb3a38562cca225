//! The pages and plain-text answers that do not involve the users table.

use crate::response::{Body, BodyView, Response, ResponseView, Status};
use vstd::prelude::*;

verus! {

/// The sentence that reports that storage can be reached.
pub const HEALTHY: &'static str = "Database connection is healthy";

/// The sentence that reports that storage cannot be reached.
pub const UNREACHABLE: &'static str = "Failed to connect to the database";

/// The landing page up to the sentence on the state of storage.
pub const PAGE_HEAD: &'static str = "<html><head></head>
            <body style='background-color: black; color: white; text-align: center;'>
                <div style='display: inline-block; border: 2px solid white; padding: 20px;'>
                    <div style='border-bottom: 2px solid white; padding-bottom: 10px;'>
                        <span style='font-weight: bold;'>Welcome to the LoungeCode Server!</span>
                    </div>
                    <div style='border-bottom: 2px solid white; padding: 10px 0;'>
                        <span>";

/// The landing page after the sentence on the state of storage.
pub const PAGE_TAIL: &'static str = "</span>
                    </div>
                    <div style='padding-top: 10px;'>
                        <span>Visit <a href=\"http://127.0.0.1:3000/user\" style='color: lightblue;'>User Management</a></span>
                    </div>
                </div>
            </body></html>";

/// The sentence on whether storage can be reached.
pub open spec fn health_text(connected: bool) -> Seq<char> {
    if connected {
        HEALTHY@
    } else {
        UNREACHABLE@
    }
}

/// Handles `GET /health`: reports in plain text whether a client could be
/// taken from the pool.
pub fn health_check(connected: bool) -> (text: &'static str)
    ensures
        text@ == health_text(connected),
{
    if connected {
        HEALTHY
    } else {
        UNREACHABLE
    }
}

/// The landing page: a fixed frame around the sentence on the state of
/// storage.
pub open spec fn root_page(connected: bool) -> Seq<char> {
    PAGE_HEAD@ + health_text(connected) + PAGE_TAIL@
}

/// Handles `GET /`: the landing page, which says whether a client could be
/// taken from the pool. The status is 200 either way.
pub fn root(connected: bool) -> (response: Response)
    ensures
        response@ == (ResponseView {
            status: Status::Success,
            body: BodyView::Html(root_page(connected)),
        }),
{
    let page = String::from_str(PAGE_HEAD).concat(health_check(connected)).concat(PAGE_TAIL);
    Response { status: Status::Success, body: Body::Html(page) }
}

/// Answers a failure to read a static file: status 500 and the text of the
/// error after a fixed prefix, as plain text.
pub fn handle_file_error(error: &str) -> (response: Response)
    ensures
        response@ == (ResponseView {
            status: Status::InternalServerError,
            body: BodyView::Text("Unhandled internal error: "@ + error@),
        }),
{
    Response {
        status: Status::InternalServerError,
        body: Body::Text(String::from_str("Unhandled internal error: ").concat(error)),
    }
}

} // verus!
