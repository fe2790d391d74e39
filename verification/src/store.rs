//! The todo list and the three operations on it.

use vstd::prelude::*;
use crate::ident::{fresh_id, is_random_uuid};
use crate::status::Status;
use crate::todo::{views, CreateTodo, Todo, TodoView};

verus! {

/// Whether some entry of `todos` has the identifier `id`.
pub open spec fn holds_id(todos: Seq<TodoView>, id: u128) -> bool {
    exists|i: int| 0 <= i < todos.len() && (#[trigger] todos[i]).id == id
}

/// The entries of `todos` whose identifier is not `id`, in their order.
pub open spec fn without_id(todos: Seq<TodoView>, id: u128) -> Seq<TodoView> {
    todos.filter(|todo: TodoView| todo.id != id)
}

/// Dropping `id` from a list extended by one entry drops it from the list and
/// keeps the entry exactly when it has another identifier.
proof fn lemma_without_id_push(todos: Seq<TodoView>, todo: TodoView, id: u128)
    ensures
        without_id(todos.push(todo), id) == if todo.id != id {
            without_id(todos, id).push(todo)
        } else {
            without_id(todos, id)
        },
{
    reveal(Seq::filter);
    assert(todos.push(todo).drop_last() =~= todos);
}

/// Dropping `id` shortens a list exactly when the list holds `id`, and leaves
/// a list that does not hold it untouched.
proof fn lemma_without_id_len(todos: Seq<TodoView>, id: u128)
    ensures
        without_id(todos, id).len() <= todos.len(),
        without_id(todos, id).len() == todos.len() <==> !holds_id(todos, id),
        !holds_id(todos, id) ==> without_id(todos, id) == todos,
    decreases todos.len(),
{
    if todos.len() == 0 {
        reveal(Seq::filter);
    } else {
        let rest = todos.drop_last();
        let last = todos.last();
        lemma_without_id_len(rest, id);
        assert(rest.push(last) =~= todos);
        lemma_without_id_push(rest, last, id);
        if holds_id(rest, id) {
            let i = choose|i: int| 0 <= i < rest.len() && (#[trigger] rest[i]).id == id;
            assert(todos[i].id == id);
        }
        if last.id == id {
            assert(todos[todos.len() - 1].id == id);
        }
        if holds_id(todos, id) {
            let i = choose|i: int| 0 <= i < todos.len() && (#[trigger] todos[i]).id == id;
            if i < rest.len() {
                assert(rest[i].id == id);
            }
        }
    }
}

/// The status that deleting `id` from `todos` answers with.
pub open spec fn delete_status(todos: Seq<TodoView>, id: u128) -> Status {
    if holds_id(todos, id) {
        Status::Success
    } else {
        Status::NotFound
    }
}

/// The text that goes with the status of a deletion.
pub open spec fn delete_message(status: Status) -> Seq<char> {
    if status == Status::Success {
        "Deleted"@
    } else {
        "Todo not found"@
    }
}

/// The list of todos, in the order of their creation.
pub struct TodoStore {
    todos: Vec<Todo>,
}

impl View for TodoStore {
    type V = Seq<TodoView>;

    closed spec fn view(&self) -> Seq<TodoView> {
        views(self.todos@)
    }
}

impl TodoStore {
    /// An empty list.
    pub fn new() -> (store: Self)
        ensures
            store@ == Seq::<TodoView>::empty(),
    {
        TodoStore { todos: Vec::new() }
    }

    /// A copy of the list as it stands.
    pub fn get_todos(&self) -> (todos: Vec<Todo>)
        ensures
            views(todos@) == self@,
    {
        let todos = self.todos.clone();
        assert(views(todos@) =~= views(self.todos@));
        todos
    }

    /// Creates an entry titled as `payload` asks, under a freshly drawn random
    /// identifier, and appends it to the list.
    ///
    /// The identifier is whatever the random source gave: the list is extended
    /// by the returned entry whichever value that is.
    pub fn create_todo(&mut self, payload: CreateTodo) -> (reply: (Status, Todo))
        ensures
            reply.0 == Status::Created,
            reply.1.title@ == payload.title@,
            is_random_uuid(reply.1.id),
            final(self)@ == old(self)@.push(reply.1@),
    {
        let id = fresh_id();
        self.create_todo_with_id(id, payload)
    }

    /// Creates an entry titled as `payload` asks under the identifier `id`,
    /// and appends it to the list.
    pub fn create_todo_with_id(&mut self, id: u128, payload: CreateTodo) -> (reply: (Status, Todo))
        ensures
            reply.0 == Status::Created,
            reply.1@ == (TodoView { id, title: payload.title@ }),
            final(self)@ == old(self)@.push(reply.1@),
    {
        let todo = Todo { id, title: payload.title };
        self.todos.push(todo.clone());
        assert(views(self.todos@) =~= views(old(self).todos@).push(todo@));
        (Status::Created, todo)
    }

    /// Removes every entry whose identifier is `id`, and reports whether there
    /// was one.
    pub fn delete_todo(&mut self, id: u128) -> (reply: (Status, &'static str))
        ensures
            final(self)@ == without_id(old(self)@, id),
            reply.0 == delete_status(old(self)@, id),
            reply.1@ == delete_message(reply.0),
    {
        let len_before = self.todos.len();
        self.retain_others(id);
        let deleted = len_before != self.todos.len();
        proof {
            lemma_without_id_len(old(self)@, id);
        }
        if deleted {
            (Status::Success, "Deleted")
        } else {
            (Status::NotFound, "Todo not found")
        }
    }

    /// Removes every entry whose identifier is `id`.
    fn retain_others(&mut self, id: u128)
        ensures
            final(self)@ == without_id(old(self)@, id),
    {
        let mut items: Vec<Todo> = Vec::new();
        core::mem::swap(&mut self.todos, &mut items);
        let ghost before = items@;
        proof {
            reveal(Seq::filter);
            assert(before.take(0) =~= Seq::<Todo>::empty());
            assert(views(Seq::<Todo>::empty()) =~= Seq::<TodoView>::empty());
        }
        for todo in it: items
            invariant
                it.seq() == before,
                views(self.todos@) == without_id(views(before.take(it.index())), id),
        {
            proof {
                let seen = before.take(it.index());
                assert(before.take(it.index() + 1) =~= seen.push(todo));
                assert(views(seen.push(todo)) =~= views(seen).push(todo@));
                lemma_without_id_push(views(seen), todo@, id);
                if todo.id != id {
                    assert(views(self.todos@.push(todo)) =~= views(self.todos@).push(todo@));
                }
            }
            if todo.id != id {
                self.todos.push(todo);
            }
        }
        proof {
            assert(before.take(before.len() as int) =~= before);
        }
    }
}

/// Whether no two entries of `todos` share an identifier.
pub open spec fn distinct_ids(todos: Seq<TodoView>) -> bool {
    forall|i: int, j: int|
        0 <= i < j < todos.len() ==> (#[trigger] todos[i]).id != (#[trigger] todos[j]).id
}

/// The list after each entry of `created` has been appended to it in turn.
pub open spec fn with_all(todos: Seq<TodoView>, created: Seq<TodoView>) -> Seq<TodoView>
    decreases created.len(),
{
    if created.len() == 0 {
        todos
    } else {
        with_all(todos, created.drop_last()).push(created.last())
    }
}

/// A list that had one todo created in it reads as before, followed by that
/// todo; created in an empty list, the todo is all the list reads.
pub proof fn create_then_list(before: Seq<TodoView>, todo: TodoView)
    ensures
        before.push(todo) == before + seq![todo],
        before.push(todo).len() == before.len() + 1,
        before.push(todo).last() == todo,
        before.len() == 0 ==> before.push(todo) == seq![todo],
{
    assert(before.push(todo) =~= before + seq![todo]);
    if before.len() == 0 {
        assert(before.push(todo) =~= seq![todo]);
    }
}

/// Deleting an identifier that the list does not hold answers not-found and
/// leaves the list as it was.
pub proof fn delete_absent(todos: Seq<TodoView>, id: u128)
    requires
        !holds_id(todos, id),
    ensures
        delete_status(todos, id) == Status::NotFound,
        delete_status(todos, id).spec_code() == 404,
        without_id(todos, id) == todos,
{
    lemma_without_id_len(todos, id);
}

/// Deleting an identifier that the list holds answers success and leaves a
/// shorter list, which no longer holds the identifier and still holds every
/// entry that has another one.
pub proof fn delete_present(todos: Seq<TodoView>, id: u128)
    requires
        holds_id(todos, id),
    ensures
        delete_status(todos, id) == Status::Success,
        delete_status(todos, id).spec_code() == 200,
        without_id(todos, id).len() < todos.len(),
        !holds_id(without_id(todos, id), id),
        forall|i: int|
            0 <= i < todos.len() && (#[trigger] todos[i]).id != id ==> without_id(
                todos,
                id,
            ).contains(todos[i]),
{
    lemma_without_id_len(todos, id);
    deleted_is_gone(todos, id);
    let keep = |todo: TodoView| todo.id != id;
    assert forall|i: int| 0 <= i < todos.len() && (#[trigger] todos[i]).id != id implies without_id(
        todos,
        id,
    ).contains(todos[i]) by {
        assert(keep(todos[i]));
        todos.lemma_filter_contains(keep, i);
    }
}

/// Whatever the list held, once an identifier has been deleted the list does
/// not hold it, and deleting it again changes nothing.
pub proof fn deleted_is_gone(todos: Seq<TodoView>, id: u128)
    ensures
        !holds_id(without_id(todos, id), id),
        without_id(without_id(todos, id), id) == without_id(todos, id),
{
    let keep = |todo: TodoView| todo.id != id;
    let left = without_id(todos, id);
    assert forall|i: int| 0 <= i < left.len() implies (#[trigger] left[i]).id != id by {
        todos.lemma_filter_pred(keep, i);
    }
    lemma_without_id_len(left, id);
}

/// However many todos are created, and in whatever order the creations take
/// their turn, the list then reads as before followed by all of them: it has
/// grown by their number and each of them is in it.
pub proof fn creations_all_appear(before: Seq<TodoView>, created: Seq<TodoView>)
    ensures
        with_all(before, created) == before + created,
        with_all(before, created).len() == before.len() + created.len(),
        forall|k: int|
            0 <= k < created.len() ==> with_all(before, created)[before.len() + k]
                == #[trigger] created[k],
    decreases created.len(),
{
    if created.len() == 0 {
        assert(before + created =~= before);
    } else {
        creations_all_appear(before, created.drop_last());
        assert((before + created.drop_last()).push(created.last()) =~= before + created);
    }
}

/// Creating a todo under an identifier that the list does not hold keeps the
/// identifiers of the list distinct.
pub proof fn fresh_id_keeps_ids_distinct(before: Seq<TodoView>, todo: TodoView)
    requires
        distinct_ids(before),
        !holds_id(before, todo.id),
    ensures
        distinct_ids(before.push(todo)),
{
    let after = before.push(todo);
    assert forall|i: int, j: int| 0 <= i < j < after.len() implies (#[trigger] after[i]).id
        != (#[trigger] after[j]).id by {
        if j == before.len() {
            assert(before[i].id != todo.id);
        } else {
            assert(before[i].id != before[j].id);
        }
    }
}

} // verus!
