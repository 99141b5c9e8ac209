//! The per-request pipelines, one per HTTP verb and path: decode has
//! already happened, encode happens outside; what stands here is
//! validate, fetch, merge and persist, stated and proved against the
//! store model.

use vstd::prelude::*;
use crate::clock::now_micros;
use crate::errors::AppError;
use crate::ident::fresh_id;
use crate::models::{
    opt_text_view, spec_create_valid, spec_update_valid, title_violation_message,
    validate_create, validate_update, CreateTodo, Todo, TodoView, UpdateTodo,
};
use crate::store::{
    inserted_sorted_at, sorted_by_created, store_has_id, todos_view, unique_ids, TodoStore,
};

verus! {

/// The record a valid creation request gives rise to, given the drawn
/// identifier and the current instant: not yet completed, with both
/// timestamps set to the instant of creation.
pub open spec fn created_view(id: u128, req: &CreateTodo, now: int) -> TodoView {
    TodoView {
        id,
        title: req.title@,
        description: opt_text_view(req.description),
        completed: false,
        created_at: now,
        updated_at: now,
    }
}

/// The record an update leaves behind: a missing `title` or `completed`
/// keeps the stored value, while `description` is always replaced by the
/// request's value — absent meaning cleared. Identity and creation time
/// never change; the update instant is always refreshed, clamped to the
/// creation time so that no record is ever updated before it was
/// created, whatever the clock read.
pub open spec fn merged_view(cur: TodoView, req: &UpdateTodo, now: int) -> TodoView {
    TodoView {
        id: cur.id,
        title: match req.title {
            Some(t) => t@,
            None => cur.title,
        },
        description: opt_text_view(req.description),
        completed: match req.completed {
            Some(c) => c,
            None => cur.completed,
        },
        created_at: cur.created_at,
        updated_at: if now < cur.created_at {
            cur.created_at
        } else {
            now
        },
    }
}

/// Law: identifiers minted by successive successful creations are
/// distinct. The first creation leaves its identifier in the store, and
/// a creation succeeds only under an identifier the store does not
/// hold; so the second identifier differs from the first, and by the
/// same argument from every identifier created before it.
pub proof fn lemma_created_ids_distinct(s: Seq<TodoView>, first: u128, second: u128)
    requires
        store_has_id(s, first),
        !store_has_id(s, second),
    ensures
        first != second,
{
}

/// Law: an update that carries no `title` keeps the stored title, one
/// that carries no `completed` keeps the stored completion flag, and
/// the stored description is always replaced by the request's
/// description — absent meaning cleared. Identity and creation time
/// survive every update.
pub proof fn lemma_merge_keeps_absent_fields(cur: TodoView, req: &UpdateTodo, now: int)
    ensures
        req.title is None ==> merged_view(cur, req, now).title == cur.title,
        req.completed is None ==> merged_view(cur, req, now).completed == cur.completed,
        merged_view(cur, req, now).description == opt_text_view(req.description),
        merged_view(cur, req, now).id == cur.id,
        merged_view(cur, req, now).created_at == cur.created_at,
{
}

/// Law: an update stamps the instant it was performed at (clamped to
/// the creation time), so the update time never decreases under a clock
/// that never runs backwards, strictly increases under a strictly
/// advancing one, and the updated record is never marked updated before
/// it was created.
pub proof fn lemma_update_advances_updated_at(cur: TodoView, req: &UpdateTodo, now: int)
    requires
        cur.created_at <= cur.updated_at,
    ensures
        now >= cur.created_at ==> merged_view(cur, req, now).updated_at == now,
        now >= cur.updated_at ==> merged_view(cur, req, now).updated_at >= cur.updated_at,
        now > cur.updated_at ==> merged_view(cur, req, now).updated_at > cur.updated_at,
        merged_view(cur, req, now).created_at <= merged_view(cur, req, now).updated_at,
{
}

/// The record a creation writes, in executable form: exactly
/// `created_view` of the request, the identifier and the instant.
pub fn make_created_todo(payload: CreateTodo, id: u128, now: i64) -> (t: Todo)
    ensures
        t@ == created_view(id, &payload, now as int),
{
    Todo {
        id,
        title: payload.title,
        description: payload.description,
        completed: false,
        created_at: now,
        updated_at: now,
    }
}

/// Creation against a chosen identifier and instant: validate, then
/// insert. Rejected titles never touch the store; a taken identifier
/// surfaces as the storage failure the primary key would raise.
pub fn create_todo_at(store: &mut TodoStore, payload: CreateTodo, id: u128, now: i64) -> (r: Result<
    Todo,
    AppError,
>)
    requires
        old(store).inv(),
    ensures
        final(store).inv(),
        !spec_create_valid(&payload) ==> (
            r matches Err(e) && (e matches AppError::ValidationError(m)
                && m@ == title_violation_message()) && final(store)@ == old(store)@
        ),
        spec_create_valid(&payload) && store_has_id(old(store)@, id) ==> (
            r matches Err(e) && (e matches AppError::SqlxError(_)) && final(store)@ == old(store)@
        ),
        spec_create_valid(&payload) && !store_has_id(old(store)@, id) ==> (
            r matches Ok(t) && t@ == created_view(id, &payload, now as int)
                && store_has_id(final(store)@, id) && exists|k: int|
                    inserted_sorted_at(old(store)@, final(store)@, t@, k)
        ),
{
    if let Err(e) = validate_create(&payload) {
        return Err(e);
    }
    let todo = make_created_todo(payload, id, now);
    let out = todo.clone();
    match store.insert(todo) {
        Ok(()) => Ok(out),
        Err(e) => Err(e),
    }
}

/// Creation as a request sees it: a fresh random identifier and the
/// current instant are drawn, then creation proceeds against them.
///
/// Whatever identifier and instant were drawn: a rejected title leaves
/// the store untouched and reports the validation message; a created
/// record starts uncompleted with equal timestamps under an identifier
/// no earlier record holds; any other failure leaves the store untouched.
pub fn create_todo(store: &mut TodoStore, payload: CreateTodo) -> (r: Result<Todo, AppError>)
    requires
        old(store).inv(),
    ensures
        final(store).inv(),
        !spec_create_valid(&payload) <==> (r matches Err(e) && (e matches AppError::ValidationError(m)
            && m@ == title_violation_message())),
        spec_create_valid(&payload) && old(store)@.len() == 0 ==> r is Ok,
        spec_create_valid(&payload) ==> (r is Ok || (r matches Err(e)
            && e matches AppError::SqlxError(_))),
        r is Err ==> final(store)@ == old(store)@,
        r matches Ok(t) ==> {
            &&& t@.title == payload.title@
            &&& t@.description == opt_text_view(payload.description)
            &&& t@.completed == false
            &&& t@.created_at == t@.updated_at
            &&& !store_has_id(old(store)@, t@.id)
            &&& store_has_id(final(store)@, t@.id)
            &&& exists|k: int| inserted_sorted_at(old(store)@, final(store)@, t@, k)
        },
{
    let id = fresh_id();
    let now = now_micros();
    create_todo_at(store, payload, id, now)
}

/// Listing: every record, most recently created first. An empty store
/// yields an empty listing, not an error.
pub fn get_todos(store: &TodoStore) -> (r: Vec<Todo>)
    requires
        store.inv(),
    ensures
        r@.len() == store@.len(),
        forall|i: int| 0 <= i < r@.len() ==> todos_view(r@)[i] == store@[store@.len() - 1 - i],
        forall|i: int, j: int| 0 <= i < j < r@.len()
            ==> todos_view(r@)[i].created_at >= todos_view(r@)[j].created_at,
{
    let r = store.list_all();
    proof {
        assert forall|i: int, j: int| 0 <= i < j < r@.len()
            implies todos_view(r@)[i].created_at >= todos_view(r@)[j].created_at by {
            let n: int = store@.len() as int;
            assert(sorted_by_created(store@));
            assert(todos_view(r@)[i] == store@[n - 1 - i]);
            assert(todos_view(r@)[j] == store@[n - 1 - j]);
        }
    }
    r
}

/// Lookup by identifier: the stored record exactly as it stands, or the
/// not-found error when no record carries the identifier.
pub fn get_todo_by_id(store: &TodoStore, id: u128) -> (r: Result<Todo, AppError>)
    ensures
        r is Ok <==> store_has_id(store@, id),
        r matches Ok(t) ==> t@.id == id && exists|i: int|
            0 <= i < store@.len() && store@[i] == t@,
        r matches Err(e) ==> e == AppError::NotFound,
{
    match store.find_by_id(id) {
        Some(t) => Ok(t),
        None => Err(AppError::NotFound),
    }
}

/// The merge an update performs, in executable form: exactly
/// `merged_view` of the stored record, the request and the instant.
pub fn merge_update(current: Todo, payload: UpdateTodo, now: i64) -> (r: Todo)
    ensures
        r@ == merged_view(current@, &payload, now as int),
{
    Todo {
        id: current.id,
        title: match payload.title {
            Some(t) => t,
            None => current.title,
        },
        description: payload.description,
        completed: match payload.completed {
            Some(c) => c,
            None => current.completed,
        },
        created_at: current.created_at,
        updated_at: if now < current.created_at {
            current.created_at
        } else {
            now
        },
    }
}

/// Update against a chosen instant: validate, fetch the current record,
/// merge per `merged_view`, persist. Nothing changes unless the whole
/// update succeeds.
pub fn update_todo_at(store: &mut TodoStore, id: u128, payload: UpdateTodo, now: i64) -> (r: Result<
    Todo,
    AppError,
>)
    requires
        old(store).inv(),
    ensures
        final(store).inv(),
        !spec_update_valid(&payload) ==> (
            r matches Err(e) && (e matches AppError::ValidationError(m)
                && m@ == title_violation_message()) && final(store)@ == old(store)@
        ),
        spec_update_valid(&payload) && !store_has_id(old(store)@, id) ==> (
            r matches Err(e) && e == AppError::NotFound && final(store)@ == old(store)@
        ),
        spec_update_valid(&payload) && store_has_id(old(store)@, id) ==> (
            r matches Ok(t) && store_has_id(final(store)@, id) && exists|k: int|
                0 <= k < old(store)@.len() && old(store)@[k].id == id
                && t@ == merged_view(old(store)@[k], &payload, now as int)
                && final(store)@ == old(store)@.update(k, t@)
        ),
        r matches Ok(t) ==> t@.created_at <= t@.updated_at,
{
    if let Err(e) = validate_update(&payload) {
        return Err(e);
    }
    let current = match store.find_by_id(id) {
        Some(c) => c,
        None => {
            return Err(AppError::NotFound);
        },
    };
    let merged = merge_update(current, payload, now);
    match store.update_row(id, merged.title, merged.description, merged.completed, now) {
        Some(t) => {
            proof {
                assert forall|p: int, q: int|
                    0 <= p < old(store)@.len() && 0 <= q < old(store)@.len()
                    && old(store)@[p].id == id && old(store)@[q].id == id implies p == q by {
                    assert(unique_ids(old(store)@));
                }
            }
            Ok(t)
        },
        None => {
            proof {
                assert(false);
            }
            Err(AppError::InternalServerError)
        },
    }
}

/// Update as a request sees it: the current instant is read, then the
/// update proceeds against it. Whatever instant was read, the merged
/// record relates to the stored one per `merged_view`, with the instant
/// read becoming the new update time.
pub fn update_todo(store: &mut TodoStore, id: u128, payload: UpdateTodo) -> (r: Result<
    Todo,
    AppError,
>)
    requires
        old(store).inv(),
    ensures
        final(store).inv(),
        !spec_update_valid(&payload) ==> (
            r matches Err(e) && (e matches AppError::ValidationError(m)
                && m@ == title_violation_message()) && final(store)@ == old(store)@
        ),
        spec_update_valid(&payload) && !store_has_id(old(store)@, id) ==> (
            r matches Err(e) && e == AppError::NotFound && final(store)@ == old(store)@
        ),
        spec_update_valid(&payload) && store_has_id(old(store)@, id) ==> (
            r matches Ok(t) && store_has_id(final(store)@, id) && exists|k: int|
                0 <= k < old(store)@.len() && old(store)@[k].id == id
                && t@ == merged_view(old(store)@[k], &payload, t@.updated_at)
                && final(store)@ == old(store)@.update(k, t@)
        ),
        r matches Ok(t) ==> t@.created_at <= t@.updated_at,
{
    let now = now_micros();
    update_todo_at(store, id, payload, now)
}

/// The meaning of a deletion's affected-row count: zero rows touched
/// means the record was absent, the not-found error; any other count
/// means the delete took effect.
pub fn delete_result(rows_affected: u64) -> (r: Result<(), AppError>)
    ensures
        r is Err <==> rows_affected == 0,
        r matches Err(e) ==> e == AppError::NotFound,
{
    if rows_affected == 0 {
        Err(AppError::NotFound)
    } else {
        Ok(())
    }
}

/// Deletion: a hard delete by identifier, the not-found error when no
/// record carries it. Deleting again after success finds nothing.
pub fn delete_todo(store: &mut TodoStore, id: u128) -> (r: Result<(), AppError>)
    requires
        old(store).inv(),
    ensures
        final(store).inv(),
        r is Err <==> !store_has_id(old(store)@, id),
        r matches Err(e) ==> e == AppError::NotFound && final(store)@ == old(store)@,
        r is Ok ==> exists|k: int|
            0 <= k < old(store)@.len() && old(store)@[k].id == id
            && final(store)@ == old(store)@.remove(k),
        !store_has_id(final(store)@, id),
{
    let n: u64 = store.delete_by_id(id);
    delete_result(n)
}

} // verus!
