//! The records of the todo service.

use vstd::prelude::*;

verus! {

/// One entry of the todo list.
#[derive(Debug, PartialEq, Eq)]
pub struct Todo {
    /// The 128-bit identifier the entry was created with.
    pub id: u128,
    /// What is to be done.
    pub title: String,
}

/// What a [`Todo`] holds, as mathematical values.
pub struct TodoView {
    pub id: u128,
    pub title: Seq<char>,
}

impl View for Todo {
    type V = TodoView;

    open spec fn view(&self) -> TodoView {
        TodoView { id: self.id, title: self.title@ }
    }
}

impl Clone for Todo {
    fn clone(&self) -> (copy: Self)
        ensures
            copy == *self,
    {
        Todo { id: self.id, title: self.title.clone() }
    }
}

/// The body of a request that creates a todo.
#[derive(Debug, PartialEq, Eq)]
pub struct CreateTodo {
    /// The title of the entry to create.
    pub title: String,
}

/// The views of a sequence of todos, in the same order.
pub open spec fn views(todos: Seq<Todo>) -> Seq<TodoView> {
    todos.map_values(|todo: Todo| todo@)
}

} // verus!
