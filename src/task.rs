use vstd::prelude::*;

verus! {

/// One entry of the list: its text and whether it is done.
#[derive(Clone, Debug)]
pub struct Task {
    pub text: String,
    pub done: bool,
}

impl View for Task {
    type V = (Seq<char>, bool);

    open spec fn view(&self) -> (Seq<char>, bool) {
        (self.text@, self.done)
    }
}

/// The list as a sequence of (text, done) pairs.
pub open spec fn tasks_view(tasks: Seq<Task>) -> Seq<(Seq<char>, bool)> {
    tasks.map_values(|t: Task| t@)
}

impl Task {
    /// A task with the given text, not done.
    pub fn new(text: String) -> (r: Task)
        ensures
            r@ == (text@, false),
    {
        Task { text, done: false }
    }

    /// The same text with the `done` flag flipped.
    pub fn toggled(&self) -> (r: Task)
        ensures
            r@ == (self.text@, !self.done),
    {
        Task { text: self.text.clone(), done: !self.done }
    }
}

} // verus!
