//! The task record and its mathematical model.

use vstd::prelude::*;

verus! {

/// One entry of the to-do list.
#[derive(Debug, Clone, PartialEq, Eq)]
pub struct Item {
    /// The title: a short label.
    pub item: String,
    /// Free text, possibly empty or of several lines.
    pub note: String,
    /// Whether the task is done.
    pub completed: bool,
}

/// What an `Item` holds, as plain values. A task list is a `Seq<Task>`: the
/// position of a task in it is its only identity.
pub struct Task {
    pub title: Seq<char>,
    pub note: Seq<char>,
    pub completed: bool,
}

impl View for Item {
    type V = Task;

    open spec fn view(&self) -> Task {
        Task { title: self.item@, note: self.note@, completed: self.completed }
    }
}

impl DeepView for Item {
    type V = Task;

    open spec fn deep_view(&self) -> Task {
        self@
    }
}

impl Item {
    /// A task that is not done yet.
    pub fn new(item: String, note: String) -> (made: Item)
        ensures
            made@ == (Task { title: item@, note: note@, completed: false }),
    {
        Item { item, note, completed: false }
    }
}

} // verus!
