//! The semantics of the `todos` table: an in-memory model of the
//! persistence gateway.
//!
//! The store keeps its records sorted by creation time (oldest first)
//! and keyed by globally unique identifiers — exactly the shape the
//! backing table has under its primary-key constraint and the listing
//! query's ordering. Every gateway operation is specified against the
//! sequence of record views.

use vstd::prelude::*;
use vstd::string::StringExecFns;
use crate::errors::AppError;
use crate::models::{opt_text_view, Todo, TodoView};

verus! {

/// The sequence of record views behind a sequence of records.
pub open spec fn todos_view(v: Seq<Todo>) -> Seq<TodoView> {
    v.map_values(|t: Todo| t@)
}

/// Whether a record with the given identifier is present.
pub open spec fn store_has_id(s: Seq<TodoView>, id: u128) -> bool {
    exists|i: int| 0 <= i < s.len() && s[i].id == id
}

/// No two records share an identifier (the primary-key constraint).
pub open spec fn unique_ids(s: Seq<TodoView>) -> bool {
    forall|i: int, j: int| 0 <= i < j < s.len() ==> s[i].id != s[j].id
}

/// Records appear in order of creation time, oldest first.
pub open spec fn sorted_by_created(s: Seq<TodoView>) -> bool {
    forall|i: int, j: int| 0 <= i < j < s.len() ==> s[i].created_at <= s[j].created_at
}

/// Every record was updated no earlier than it was created.
pub open spec fn timestamps_ordered(s: Seq<TodoView>) -> bool {
    forall|i: int| 0 <= i < s.len() ==> s[i].created_at <= #[trigger] s[i].updated_at
}

/// `s1` is `s0` with `t` inserted at position `k`, the position chosen
/// so that `t` stands after every record created no later than it.
pub open spec fn inserted_sorted_at(s0: Seq<TodoView>, s1: Seq<TodoView>, t: TodoView, k: int) -> bool {
    &&& 0 <= k <= s0.len()
    &&& s1 == s0.insert(k, t)
    &&& forall|m: int| 0 <= m < k ==> s0[m].created_at <= t.created_at
    &&& forall|m: int| k <= m < s0.len() ==> s0[m].created_at > t.created_at
}

/// Law: a record inserted under an identifier the store did not hold is
/// exactly what any later lookup of that identifier finds — every record
/// of the new store carrying the identifier is the inserted record,
/// field for field.
pub proof fn lemma_lookup_after_insert(
    s0: Seq<TodoView>,
    s1: Seq<TodoView>,
    t: TodoView,
    k: int,
    j: int,
)
    requires
        !store_has_id(s0, t.id),
        inserted_sorted_at(s0, s1, t, k),
        0 <= j < s1.len(),
        s1[j].id == t.id,
    ensures
        s1[j] == t,
{
    s0.insert_ensures(k, t);
    if j < k {
        assert(s1[j] == s0[j]);
        assert(store_has_id(s0, t.id));
    } else if j > k {
        assert(s1[j] == s0[j - 1]);
        assert(store_has_id(s0, t.id));
    }
}

/// Law: an update touches nothing else. When the record carrying an
/// identifier is overwritten in a store with unique identifiers, every
/// record carrying a different identifier stands exactly as before, so
/// a lookup of it still returns the identical record.
pub proof fn lemma_update_preserves_other_records(
    s0: Seq<TodoView>,
    k: int,
    t: TodoView,
    j: int,
)
    requires
        unique_ids(s0),
        0 <= k < s0.len(),
        s0[k].id == t.id,
        0 <= j < s0.len(),
        s0[j].id != t.id,
    ensures
        s0.update(k, t)[j] == s0[j],
{
}

/// Law: deletion is terminal for an identifier. Removing the record
/// that carries it from a store with unique identifiers leaves a store
/// in which the identifier is absent, so a repeated delete or a lookup
/// of it reports absence, however often repeated.
pub proof fn lemma_removed_id_absent(s: Seq<TodoView>, k: int)
    requires
        unique_ids(s),
        0 <= k < s.len(),
    ensures
        !store_has_id(s.remove(k), s[k].id),
{
    s.remove_ensures(k);
    assert forall|j: int| 0 <= j < s.remove(k).len() implies s.remove(k)[j].id != s[k].id by {
        if j < k {
            assert(s.remove(k)[j] == s[j]);
        } else {
            assert(s.remove(k)[j] == s[j + 1]);
        }
    }
}

/// The model of the `todos` table.
pub struct TodoStore {
    todos: Vec<Todo>,
}

impl View for TodoStore {
    type V = Seq<TodoView>;

    closed spec fn view(&self) -> Seq<TodoView> {
        todos_view(self.todos@)
    }
}

impl TodoStore {
    /// The table's standing invariant: unique identifiers, creation
    /// order, and no record updated before it was created.
    pub open spec fn inv(&self) -> bool {
        unique_ids(self@) && sorted_by_created(self@) && timestamps_ordered(self@)
    }

    /// An empty table.
    pub fn new() -> (s: TodoStore)
        ensures
            s@ == Seq::<TodoView>::empty(),
            s.inv(),
    {
        let s = TodoStore { todos: Vec::new() };
        proof {
            assert(s@ =~= Seq::<TodoView>::empty());
        }
        s
    }

    /// Index of the record with the given identifier, if any.
    fn find_index(&self, id: u128) -> (r: Option<usize>)
        ensures
            r matches Some(i) ==> 0 <= i < self@.len() && self@[i as int].id == id,
            r is None ==> !store_has_id(self@, id),
    {
        let n: usize = self.todos.len();
        let mut i: usize = 0;
        while i < n
            invariant
                n == self.todos.len(),
                0 <= i <= n,
                forall|m: int| 0 <= m < i ==> self@[m].id != id,
            decreases n - i,
        {
            if self.todos[i].id == id {
                return Some(i);
            }
            i = i + 1;
        }
        None
    }

    /// Adds a record, failing as the primary-key constraint does when
    /// the identifier is already taken.
    ///
    /// On success the record is placed after every record created no
    /// later than it, so creation order is kept.
    pub fn insert(&mut self, todo: Todo) -> (r: Result<(), AppError>)
        requires
            old(self).inv(),
            todo@.created_at <= todo@.updated_at,
        ensures
            final(self).inv(),
            store_has_id(old(self)@, todo@.id) ==> (
                r matches Err(e) && (e matches AppError::SqlxError(_)) && final(self)@ == old(self)@
            ),
            !store_has_id(old(self)@, todo@.id) ==> (
                r is Ok && store_has_id(final(self)@, todo@.id) && exists|k: int|
                    inserted_sorted_at(old(self)@, final(self)@, todo@, k)
            ),
    {
        let ghost s0 = self@;
        if self.find_index(todo.id).is_some() {
            return Err(AppError::SqlxError(String::from_str("UNIQUE constraint failed: todos.id")));
        }
        let n: usize = self.todos.len();
        let mut i: usize = 0;
        while i < n && self.todos[i].created_at <= todo.created_at
            invariant
                n == self.todos.len(),
                0 <= i <= n,
                s0 == self@,
                forall|m: int| 0 <= m < i ==> self@[m].created_at <= todo@.created_at,
            decreases n - i,
        {
            i = i + 1;
        }
        proof {
            assert(forall|m: int| i <= m < s0.len() ==> s0[i as int].created_at <= #[trigger] s0[m].created_at);
        }
        let ghost tv = todo@;
        self.todos.insert(i, todo);
        proof {
            assert(self@ =~= s0.insert(i as int, tv));
            s0.insert_ensures(i as int, tv);
            assert(inserted_sorted_at(s0, self@, tv, i as int));
            assert(self@[i as int] == tv);
            assert forall|p: int, q: int| 0 <= p < q < self@.len() implies self@[p].id != self@[q].id by {
                assert(store_has_id(s0, tv.id) == false);
            }
            assert(self.inv());
        }
        Ok(())
    }

    /// Looks a record up by identifier; absence is not an error here.
    pub fn find_by_id(&self, id: u128) -> (r: Option<Todo>)
        ensures
            r is Some <==> store_has_id(self@, id),
            r matches Some(t) ==> t@.id == id
                && exists|i: int| 0 <= i < self@.len() && self@[i] == t@,
    {
        match self.find_index(id) {
            Some(i) => Some(self.todos[i].clone()),
            None => None,
        }
    }

    /// All records, most recently created first.
    pub fn list_all(&self) -> (r: Vec<Todo>)
        ensures
            r@.len() == self@.len(),
            forall|i: int| 0 <= i < r@.len() ==> todos_view(r@)[i] == self@[self@.len() - 1 - i],
    {
        let n: usize = self.todos.len();
        let mut out: Vec<Todo> = Vec::new();
        let mut i: usize = 0;
        while i < n
            invariant
                n == self.todos.len(),
                0 <= i <= n,
                out@.len() == i,
                forall|m: int| 0 <= m < i ==> todos_view(out@)[m] == self@[n - 1 - m],
            decreases n - i,
        {
            let ghost prev = out@;
            let c = self.todos[n - 1 - i].clone();
            let ghost cv = c@;
            out.push(c);
            proof {
                assert(todos_view(out@) =~= todos_view(prev).push(cv));
            }
            i = i + 1;
        }
        out
    }

    /// Overwrites every mutable column of the record with the given
    /// identifier, keeping its creation time, and returns the new row;
    /// yields nothing when the identifier is absent. The update stamp is
    /// clamped to the row's creation time, so a clock reading from
    /// before the row existed can never leave it updated before it was
    /// created.
    pub fn update_row(
        &mut self,
        id: u128,
        title: String,
        description: Option<String>,
        completed: bool,
        updated_at: i64,
    ) -> (r: Option<Todo>)
        requires
            old(self).inv(),
        ensures
            final(self).inv(),
            r is None <==> !store_has_id(old(self)@, id),
            r is None ==> final(self)@ == old(self)@,
            r matches Some(t) ==> store_has_id(final(self)@, id) && exists|k: int|
                0 <= k < old(self)@.len() && old(self)@[k].id == id
                && t@ == (TodoView {
                    id,
                    title: title@,
                    description: opt_text_view(description),
                    completed,
                    created_at: old(self)@[k].created_at,
                    updated_at: if (updated_at as int) < old(self)@[k].created_at {
                        old(self)@[k].created_at
                    } else {
                        updated_at as int
                    },
                })
                && final(self)@ == old(self)@.update(k, t@),
    {
        let ghost s0 = self@;
        match self.find_index(id) {
            None => None,
            Some(k) => {
                let created: i64 = self.todos[k].created_at;
                let stamp: i64 = if updated_at < created {
                    created
                } else {
                    updated_at
                };
                let row = Todo {
                    id,
                    title,
                    description,
                    completed,
                    created_at: created,
                    updated_at: stamp,
                };
                let out = row.clone();
                self.todos[k] = row;
                proof {
                    assert(self@ =~= s0.update(k as int, out@));
                    assert(self@[k as int].id == id);
                    assert(self.inv());
                }
                Some(out)
            },
        }
    }

    /// Removes the record with the given identifier, reporting how many
    /// rows that affected: one when it existed, zero when it did not.
    pub fn delete_by_id(&mut self, id: u128) -> (n: u64)
        requires
            old(self).inv(),
        ensures
            final(self).inv(),
            !store_has_id(old(self)@, id) ==> n == 0 && final(self)@ == old(self)@,
            store_has_id(old(self)@, id) ==> n == 1 && exists|k: int|
                0 <= k < old(self)@.len() && old(self)@[k].id == id
                && final(self)@ == old(self)@.remove(k),
            !store_has_id(final(self)@, id),
    {
        let ghost s0 = self@;
        match self.find_index(id) {
            None => 0,
            Some(k) => {
                self.todos.remove(k);
                proof {
                    assert(self@ =~= s0.remove(k as int));
                    s0.remove_ensures(k as int);
                    lemma_removed_id_absent(s0, k as int);
                    assert(self.inv());
                }
                1
            },
        }
    }
}

} // verus!
