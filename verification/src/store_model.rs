//! A mathematical model of the users table, and what the handlers do
//! when they are served by it.
//!
//! The handlers never see storage, only the outcomes that the driver
//! reports. To say what a whole request does, this module states what a
//! store that never fails answers to each action, runs a handler against it
//! to the end, and proves what the service promises about the result.
//! Nothing here is executable.

use crate::db::query::QueryView;
use crate::flow::{answers, ActionView, EventView, ProgressView};
use crate::handlers::user::{
    create_user_next, delete_all_users_next, delete_user_next, get_all_users_next, get_user_next,
    update_user_next, user_not_found, UserPatchView,
};
use crate::models::user::{NewUserView, UserView};
use crate::response::{error_response, message_response, BodyView, ResponseView, Status};
use crate::validation::username_error;
use vstd::prelude::*;

verus! {

/// The users table: its rows, in the order a listing returns them, and the
/// `id` that the next inserted row is given.
pub struct Table {
    pub rows: Seq<UserView>,
    pub next_id: i32,
}

/// The rows of `rows` whose `id` is `id`.
pub open spec fn with_id(rows: Seq<UserView>, id: i32) -> Seq<UserView> {
    rows.filter(|row: UserView| row.id == id)
}

/// The rows of `rows` whose `id` is not `id`.
pub open spec fn without_id(rows: Seq<UserView>, id: i32) -> Seq<UserView> {
    rows.filter(|row: UserView| row.id != id)
}

/// The rows of `rows` whose `telegram_id` is `telegram_id`.
pub open spec fn with_telegram_id(rows: Seq<UserView>, telegram_id: i64) -> Seq<UserView> {
    rows.filter(|row: UserView| row.telegram_id == telegram_id)
}

/// The `id` column of `rows`.
pub open spec fn ids_of(rows: Seq<UserView>) -> Seq<i32> {
    rows.map_values(|row: UserView| row.id)
}

/// `rows` with every row whose `id` is that of `new` replaced by `new`.
pub open spec fn overwritten(rows: Seq<UserView>, new: UserView) -> Seq<UserView> {
    rows.map_values(
        |row: UserView|
            if row.id == new.id {
                new
            } else {
                row
            },
    )
}

impl Table {
    /// The table without rows.
    pub open spec fn is_empty(self) -> bool {
        self.rows.len() == 0
    }

    /// Some row has this `id`.
    pub open spec fn has_id(self, id: i32) -> bool {
        exists|i: int| 0 <= i < self.rows.len() && (#[trigger] self.rows[i]).id == id
    }

    /// Some row has this `telegram_id`.
    pub open spec fn has_telegram_id(self, telegram_id: i64) -> bool {
        exists|i: int|
            0 <= i < self.rows.len() && (#[trigger] self.rows[i]).telegram_id == telegram_id
    }

    /// The row with this `id`, where there is one.
    pub open spec fn row(self, id: i32) -> UserView {
        self.rows[choose|i: int| 0 <= i < self.rows.len() && (#[trigger] self.rows[i]).id == id]
    }

    /// No two rows share an `id`, and every `id` in use is below the next
    /// one to be given out.
    pub open spec fn well_formed(self) -> bool {
        &&& forall|i: int, j: int|
            0 <= i < j < self.rows.len() ==> (#[trigger] self.rows[i]).id != (
            #[trigger] self.rows[j]).id
        &&& forall|i: int| 0 <= i < self.rows.len() ==> (#[trigger] self.rows[i]).id < self.next_id
        &&& self.next_id < i32::MAX
    }

    /// The table after `query` has run, and what the run hands back.
    pub open spec fn run(self, query: QueryView) -> (Table, EventView) {
        match query {
            QueryView::FindByTelegramId(telegram_id) => (
                self,
                EventView::Ids(ids_of(with_telegram_id(self.rows, telegram_id))),
            ),
            QueryView::Insert(new) => (
                Table {
                    rows: self.rows.push(new.with_id(self.next_id)),
                    next_id: (self.next_id + 1) as i32,
                },
                EventView::Ids(seq![self.next_id]),
            ),
            QueryView::FindById(id) => (self, EventView::Users(with_id(self.rows, id))),
            QueryView::ListAll => (self, EventView::Users(self.rows)),
            QueryView::Update(new) => {
                let rows = overwritten(self.rows, new);
                (Table { rows, next_id: self.next_id }, EventView::Users(with_id(rows, new.id)))
            },
            QueryView::ExistsById(id) => (self, EventView::Ids(ids_of(with_id(self.rows, id)))),
            QueryView::DeleteById(id) => (
                Table { rows: without_id(self.rows, id), next_id: self.next_id },
                EventView::Affected(with_id(self.rows, id).len() as u64),
            ),
            QueryView::DeleteAll => (
                Table { rows: Seq::empty(), next_id: self.next_id },
                EventView::Affected(self.rows.len() as u64),
            ),
        }
    }

    /// The table after the driver has performed `action` on a store that
    /// never fails, and the event the driver reports. A final action asks
    /// nothing of the driver; for it the result has no meaning.
    pub open spec fn answer(self, action: ActionView) -> (Table, EventView)
        recommends
            !action.is_final(),
    {
        match action {
            ActionView::Acquire => (self, EventView::Connected),
            ActionView::Prepare(_) => (self, EventView::Prepared),
            ActionView::Run(query) => self.run(query),
            ActionView::Respond(_) | ActionView::Abort => (self, EventView::Connected),
        }
    }
}

/// A handler for one request: the next action for each progress.
pub type Handler = spec_fn(ProgressView) -> ActionView;

/// Runs `handler` from `progress` against `table` until it responds or
/// aborts, for at most `steps` actions. The result is the table as the
/// request leaves it and the last action.
pub open spec fn serve_from(handler: Handler, table: Table, progress: ProgressView, steps: nat) -> (
    Table,
    ActionView,
)
    decreases steps,
{
    let action = handler(progress);
    if action.is_final() || steps == 0 {
        (table, action)
    } else {
        let (next_table, event) = table.answer(action);
        serve_from(handler, next_table, ProgressView::After(action, event), (steps - 1) as nat)
    }
}

/// The most storage calls any handler asks for: a client, and two
/// statements that are each prepared and run.
pub open spec fn max_steps() -> nat {
    5
}

/// Runs `handler` on a fresh request against `table`.
pub open spec fn serve(handler: Handler, table: Table) -> (Table, ActionView) {
    serve_from(handler, table, ProgressView::Start, max_steps())
}

/// The handler of a request to create the user `payload`.
pub open spec fn creating(payload: NewUserView) -> Handler {
    |progress: ProgressView| create_user_next(payload, progress)
}

/// The handler of a request for the user `id`.
pub open spec fn getting(id: i32) -> Handler {
    |progress: ProgressView| get_user_next(id, progress)
}

/// The handler of a request for all users.
pub open spec fn listing() -> Handler {
    |progress: ProgressView| get_all_users_next(progress)
}

/// The handler of a request to change the user `id` by `patch`.
pub open spec fn updating(id: i32, patch: UserPatchView) -> Handler {
    |progress: ProgressView| update_user_next(id, patch, progress)
}

/// The handler of a request to delete the user `id`.
pub open spec fn deleting(id: i32) -> Handler {
    |progress: ProgressView| delete_user_next(id, progress)
}

/// The handler of a request to delete all users.
pub open spec fn deleting_all() -> Handler {
    |progress: ProgressView| delete_all_users_next(progress)
}

/// Feeds `handler` the events of `events`, one after each action, from
/// `progress` on. The result is the first action that is final, or the
/// action reached when the events run out.
pub open spec fn replay(handler: Handler, progress: ProgressView, events: Seq<EventView>) -> ActionView
    decreases events.len(),
{
    let action = handler(progress);
    if action.is_final() || events.len() == 0 {
        action
    } else {
        replay(handler, ProgressView::After(action, events[0]), events.drop_first())
    }
}

/// `handler` is the handler of some request to one of the user endpoints.
pub open spec fn is_user_handler(handler: Handler) -> bool {
    ||| exists|payload: NewUserView| handler == creating(payload)
    ||| exists|id: i32| handler == getting(id)
    ||| handler == listing()
    ||| exists|id: i32, patch: UserPatchView| handler == updating(id, patch)
    ||| exists|id: i32| handler == deleting(id)
    ||| handler == deleting_all()
}

/// The answer to a storage failure: status 500 with an error text that ends
/// in the text of the failure.
pub open spec fn is_internal_error(action: ActionView, detail: Seq<char>) -> bool {
    &&& action matches ActionView::Respond(response)
    &&& response.status == Status::InternalServerError
    &&& response.body matches BodyView::Error { error }
    &&& error.len() >= detail.len()
    &&& error.subrange(error.len() - detail.len(), error.len() as int) == detail
}

/// A failed storage call ends the request at once: nothing is retried, and
/// the answer, if there is one, is status 500 with the text of the failure.
pub proof fn law_storage_failures_end_the_request(
    handler: Handler,
    action: ActionView,
    detail: Seq<char>,
)
    requires
        is_user_handler(handler),
    ensures
        ({
            let next = handler(ProgressView::After(action, EventView::Failed(detail)));
            next is Abort || is_internal_error(next, detail)
        }),
{
    let next = handler(ProgressView::After(action, EventView::Failed(detail)));
    if next is Respond {
        let response = next->Respond_0;
        assert(response.body is Error);
        let error = response.body->error;
        assert(error.subrange(error.len() - detail.len(), error.len() as int) =~= detail);
    }
}

/// An event that cannot be the outcome of the action it is reported for
/// makes the handler give up.
pub proof fn law_unanswered_actions_abort(handler: Handler, action: ActionView, event: EventView)
    requires
        is_user_handler(handler),
        !answers(action, event),
    ensures
        handler(ProgressView::After(action, event)) is Abort,
{
}

/// Every request ends after at most five storage calls, whatever their
/// outcomes are.
pub proof fn law_every_request_ends(handler: Handler, events: Seq<EventView>)
    requires
        is_user_handler(handler),
        events.len() >= max_steps(),
    ensures
        replay(handler, ProgressView::Start, events).is_final(),
{
    reveal_with_fuel(replay, 6);
}

/// Filtering by a condition that no element meets leaves nothing.
proof fn lemma_filter_none<A>(s: Seq<A>, pred: spec_fn(A) -> bool)
    requires
        forall|i: int| 0 <= i < s.len() ==> !pred(#[trigger] s[i]),
    ensures
        s.filter(pred).len() == 0,
    decreases s.len(),
{
    reveal(Seq::filter);
    if s.len() > 0 {
        assert(!pred(s[s.len() - 1]));
        lemma_filter_none(s.drop_last(), pred);
    }
}

/// Filtering by a condition that some element meets leaves something.
proof fn lemma_filter_some<A>(s: Seq<A>, pred: spec_fn(A) -> bool, i: int)
    requires
        0 <= i < s.len(),
        pred(s[i]),
    ensures
        s.filter(pred).len() > 0,
{
    s.lemma_filter_contains(pred, i);
}

/// The positions in `s` of the elements that a filter keeps, in order.
spec fn filter_positions<A>(s: Seq<A>, pred: spec_fn(A) -> bool) -> Seq<int>
    decreases s.len(),
{
    if s.len() == 0 {
        Seq::empty()
    } else if pred(s.last()) {
        filter_positions(s.drop_last(), pred).push(s.len() - 1)
    } else {
        filter_positions(s.drop_last(), pred)
    }
}

/// A filter keeps its elements in their order: the positions they came from
/// increase.
proof fn lemma_filter_increasing<A>(s: Seq<A>, pred: spec_fn(A) -> bool)
    ensures
        filter_positions(s, pred).len() == s.filter(pred).len(),
        forall|k: int|
            0 <= k < s.filter(pred).len() ==> {
                &&& 0 <= #[trigger] filter_positions(s, pred)[k] < s.len()
                &&& s.filter(pred)[k] == s[filter_positions(s, pred)[k]]
            },
        forall|k: int, l: int|
            0 <= k < l < s.filter(pred).len() ==> #[trigger] filter_positions(s, pred)[k]
                < #[trigger] filter_positions(s, pred)[l],
    decreases s.len(),
{
    reveal(Seq::filter);
    if s.len() > 0 {
        lemma_filter_increasing(s.drop_last(), pred);
        let at = filter_positions(s, pred);
        let rest = filter_positions(s.drop_last(), pred);
        assert forall|k: int| 0 <= k < s.filter(pred).len() implies {
            &&& 0 <= #[trigger] at[k] < s.len()
            &&& s.filter(pred)[k] == s[at[k]]
        } by {
            if k < rest.len() {
                assert(at[k] == rest[k]);
                assert(s.drop_last()[rest[k]] == s[rest[k]]);
            }
        }
        assert forall|k: int, l: int| 0 <= k < l < s.filter(pred).len() implies #[trigger] at[k]
            < #[trigger] at[l] by {
            if l < rest.len() {
                assert(at[k] == rest[k] && at[l] == rest[l]);
            } else {
                assert(at[k] == rest[k]);
            }
        }
    }
}

/// What a filter keeps was there before.
proof fn lemma_filter_member<A>(s: Seq<A>, pred: spec_fn(A) -> bool, k: int)
    requires
        0 <= k < s.filter(pred).len(),
    ensures
        exists|i: int| 0 <= i < s.len() && #[trigger] s[i] == s.filter(pred)[k],
    decreases s.len(),
{
    reveal(Seq::filter);
    if s.len() > 0 {
        let rest = s.drop_last().filter(pred);
        if k < rest.len() {
            lemma_filter_member(s.drop_last(), pred, k);
            let i = choose|i: int| 0 <= i < s.drop_last().len() && #[trigger] s.drop_last()[i] == rest[k];
            assert(s[i] == s.filter(pred)[k]);
        } else {
            assert(s[s.len() - 1] == s.filter(pred)[k]);
        }
    }
}

/// In a well-formed table the rows with a stored `id` are that one row.
proof fn lemma_unique_row(table: Table, id: i32)
    requires
        table.well_formed(),
        table.has_id(id),
    ensures
        table.row(id).id == id,
        with_id(table.rows, id) == seq![table.row(id)],
{
    lemma_first_row(table, id);
    let pred = |row: UserView| row.id == id;
    let found = table.rows.filter(pred);
    if found.len() > 1 {
        lemma_filter_increasing(table.rows, pred);
        let at = filter_positions(table.rows, pred);
        table.rows.lemma_filter_pred(pred, 0);
        table.rows.lemma_filter_pred(pred, 1);
        assert(at[0] < at[1]);
        assert(table.rows[at[0]].id == table.rows[at[1]].id);
    }
    assert(found =~= seq![table.row(id)]);
}

/// In a well-formed table the first row found under a stored `id` is the
/// row with that `id`.
proof fn lemma_first_row(table: Table, id: i32)
    requires
        table.well_formed(),
        table.has_id(id),
    ensures
        table.row(id).id == id,
        with_id(table.rows, id).len() > 0,
        with_id(table.rows, id)[0] == table.row(id),
{
    let pred = |row: UserView| row.id == id;
    let i = choose|i: int| 0 <= i < table.rows.len() && (#[trigger] table.rows[i]).id == id;
    lemma_filter_some(table.rows, pred, i);
    table.rows.lemma_filter_pred(pred, 0);
    lemma_filter_member(table.rows, pred, 0);
    let j = choose|j: int|
        0 <= j < table.rows.len() && #[trigger] table.rows[j] == table.rows.filter(pred)[0];
    assert(table.rows[j].id == id);
    assert(i == j);
}

/// What the model reports for an action is a possible outcome of it.
pub proof fn law_model_answers_the_action(table: Table, action: ActionView)
    requires
        !action.is_final(),
    ensures
        answers(action, table.answer(action).1),
{
}

/// Whatever the driver performs, a well-formed table stays well-formed, as
/// long as the `id`s have not run out.
pub proof fn law_tables_stay_well_formed(table: Table, action: ActionView)
    requires
        table.well_formed(),
        table.next_id + 1 < i32::MAX,
    ensures
        table.answer(action).0.well_formed(),
{
    let after = table.answer(action).0;
    match action {
        ActionView::Run(QueryView::DeleteById(id)) => {
            let pred = |row: UserView| row.id != id;
            lemma_filter_increasing(table.rows, pred);
            let at = filter_positions(table.rows, pred);
            assert forall|i: int, j: int| 0 <= i < j < after.rows.len() implies (
            #[trigger] after.rows[i]).id != (#[trigger] after.rows[j]).id by {
                assert(after.rows[i] == table.rows[at[i]]);
                assert(after.rows[j] == table.rows[at[j]]);
            }
            assert forall|i: int| 0 <= i < after.rows.len() implies (#[trigger] after.rows[i]).id
                < after.next_id by {
                assert(after.rows[i] == table.rows[at[i]]);
            }
        },
        ActionView::Run(QueryView::Update(new)) => {
            assert forall|i: int, j: int| 0 <= i < j < after.rows.len() implies (
            #[trigger] after.rows[i]).id != (#[trigger] after.rows[j]).id by {
                assert(after.rows[i].id == table.rows[i].id);
                assert(after.rows[j].id == table.rows[j].id);
            }
            assert forall|i: int| 0 <= i < after.rows.len() implies (#[trigger] after.rows[i]).id
                < after.next_id by {
                assert(after.rows[i].id == table.rows[i].id);
            }
        },
        _ => {},
    }
}

/// Creating a user whose `telegram_id` is already stored is answered with
/// status 409, and the table is left as it was.
pub proof fn law_duplicate_telegram_id_conflicts(table: Table, payload: NewUserView)
    requires
        username_error(payload.username) is None,
        table.has_telegram_id(payload.telegram_id),
    ensures
        serve(creating(payload), table) == (
            table,
            ActionView::Respond(
                error_response(Status::Conflict, "User with this telegram_id already exists"@),
            ),
        ),
{
    reveal_with_fuel(serve_from, 6);
    let i = choose|i: int|
        0 <= i < table.rows.len() && (#[trigger] table.rows[i]).telegram_id == payload.telegram_id;
    lemma_filter_some(
        table.rows,
        |row: UserView| row.telegram_id == payload.telegram_id,
        i,
    );
}

/// Fetching, updating or deleting a user whose `id` is not stored is
/// answered with status 404, and the table is left as it was.
pub proof fn law_missing_user_not_found(table: Table, id: i32, patch: UserPatchView)
    requires
        !table.has_id(id),
        patch.username matches Some(name) ==> username_error(name) is None,
    ensures
        serve(getting(id), table) == (table, user_not_found()),
        serve(updating(id, patch), table) == (table, user_not_found()),
        serve(deleting(id), table) == (table, user_not_found()),
{
    reveal_with_fuel(serve_from, 6);
    lemma_filter_none(table.rows, |row: UserView| row.id == id);
}

/// After all users have been deleted, a listing is empty.
pub proof fn law_delete_all_then_list_is_empty(table: Table)
    ensures
        ({
            let (emptied, deleted) = serve(deleting_all(), table);
            let (listed_table, listed) = serve(listing(), emptied);
            &&& deleted == ActionView::Respond(message_response("All users deleted successfully"@))
            &&& emptied.is_empty()
            &&& listed_table == emptied
            &&& listed == ActionView::Respond(
                ResponseView { status: Status::Success, body: BodyView::Users(Seq::empty()) },
            )
        }),
{
    reveal_with_fuel(serve_from, 6);
}

/// A user whose `telegram_id` is not stored yet is created with a fresh
/// `id` and answered with status 201; fetching that `id` afterwards gives
/// back the values that were sent.
pub proof fn law_created_user_can_be_fetched(table: Table, payload: NewUserView)
    requires
        table.well_formed(),
        username_error(payload.username) is None,
        !table.has_telegram_id(payload.telegram_id),
    ensures
        ({
            let stored = payload.with_id(table.next_id);
            let (created_table, created) = serve(creating(payload), table);
            let (fetched_table, fetched) = serve(getting(table.next_id), created_table);
            &&& created_table.rows == table.rows.push(stored)
            &&& created == ActionView::Respond(
                ResponseView {
                    status: Status::Created,
                    body: BodyView::Created {
                        id: table.next_id,
                        message: "User "@ + payload.username + " created successfully"@,
                    },
                },
            )
            &&& fetched_table == created_table
            &&& fetched == ActionView::Respond(
                ResponseView { status: Status::Success, body: BodyView::User(stored) },
            )
        }),
{
    reveal_with_fuel(serve_from, 6);
    let stored = payload.with_id(table.next_id);
    lemma_filter_none(table.rows, |row: UserView| row.telegram_id == payload.telegram_id);
    let by_id = |row: UserView| row.id == table.next_id;
    lemma_filter_none(table.rows, by_id);
    let rows = table.rows.push(stored);
    assert(rows.filter(by_id) =~= seq![stored]) by {
        reveal(Seq::filter);
        assert(rows.drop_last() =~= table.rows);
    }
}

/// Updating a stored user answers with the stored row under the supplied
/// fields and writes exactly that row back; every other row stays as it
/// was.
pub proof fn law_update_rewrites_the_row(table: Table, id: i32, patch: UserPatchView)
    requires
        table.well_formed(),
        table.has_id(id),
        patch.username matches Some(name) ==> username_error(name) is None,
    ensures
        ({
            let merged = patch.merged(id, table.row(id));
            let (updated_table, updated) = serve(updating(id, patch), table);
            &&& updated_table.rows == overwritten(table.rows, merged)
            &&& updated_table.next_id == table.next_id
            &&& updated == ActionView::Respond(
                ResponseView {
                    status: Status::Success,
                    body: BodyView::Updated { message: "User updated successfully"@, user: merged },
                },
            )
        }),
{
    reveal_with_fuel(serve_from, 6);
    lemma_unique_row(table, id);
    let merged = patch.merged(id, table.row(id));
    let rows = overwritten(table.rows, merged);
    let pred = |row: UserView| row.id == id;
    let i = choose|i: int| 0 <= i < table.rows.len() && (#[trigger] table.rows[i]).id == id;
    assert(rows[i] == merged);
    lemma_filter_some(rows, pred, i);
    rows.lemma_filter_pred(pred, 0);
    lemma_filter_member(rows, pred, 0);
    let j = choose|j: int| 0 <= j < rows.len() && #[trigger] rows[j] == rows.filter(pred)[0];
    assert(rows[j] == merged) by {
        if table.rows[j].id != id {
            assert(rows[j] == table.rows[j]);
        }
    }
}

/// An update that supplies no field leaves the table as it was and
/// answers with the stored row.
pub proof fn law_empty_update_leaves_the_table(table: Table, id: i32, patch: UserPatchView)
    requires
        table.well_formed(),
        table.has_id(id),
        patch.is_empty(),
    ensures
        serve(updating(id, patch), table) == (
            table,
            ActionView::Respond(
                ResponseView {
                    status: Status::Success,
                    body: BodyView::Updated {
                        message: "User updated successfully"@,
                        user: table.row(id),
                    },
                },
            ),
        ),
{
    law_update_rewrites_the_row(table, id, patch);
    lemma_unique_row(table, id);
    assert(patch.merged(id, table.row(id)) == table.row(id));
    assert(overwritten(table.rows, table.row(id)) =~= table.rows) by {
        assert forall|k: int| 0 <= k < table.rows.len() implies overwritten(
            table.rows,
            table.row(id),
        )[k] == table.rows[k] by {
            let i = choose|i: int| 0 <= i < table.rows.len() && (#[trigger] table.rows[i]).id == id;
            if table.rows[k].id == id {
                assert(k == i);
            }
        }
    }
}

/// Deleting a stored user removes its row and no other, and answers with
/// status 200; the `id` is not stored afterwards.
pub proof fn law_deleted_user_is_gone(table: Table, id: i32)
    requires
        table.well_formed(),
        table.has_id(id),
    ensures
        ({
            let (remaining, deleted) = serve(deleting(id), table);
            &&& remaining.rows == without_id(table.rows, id)
            &&& remaining.next_id == table.next_id
            &&& !remaining.has_id(id)
            &&& deleted == ActionView::Respond(message_response("User deleted successfully"@))
        }),
{
    reveal_with_fuel(serve_from, 6);
    lemma_unique_row(table, id);
    let kept = without_id(table.rows, id);
    assert forall|i: int| 0 <= i < kept.len() implies (#[trigger] kept[i]).id != id by {
        table.rows.lemma_filter_pred(|row: UserView| row.id != id, i);
    }
}

} // verus!
