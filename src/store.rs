use vstd::prelude::*;
use crate::task::Task;

verus! {

/// What reading the stored list gave.
pub enum StoreRead {
    /// There is no store yet.
    Missing,
    /// The store is there but does not hold a list of tasks.
    Corrupt,
    /// The store holds these tasks.
    Loaded(Vec<Task>),
}

/// The list to start from, and whether an empty store has to be created.
pub struct Recovered {
    pub tasks: Vec<Task>,
    pub create_store: bool,
}

/// Turns the outcome of a read into the list to work on: the stored tasks, or
/// an empty list when the store is missing (which is then created) or
/// unreadable. No failure reaches the user.
pub fn recover_tasks(read: StoreRead) -> (r: Recovered)
    ensures
        read is Loaded ==> r.tasks@ == read->Loaded_0@,
        !(read is Loaded) ==> r.tasks@.len() == 0,
        r.create_store <==> read is Missing,
{
    match read {
        StoreRead::Missing => Recovered { tasks: Vec::new(), create_store: true },
        StoreRead::Corrupt => Recovered { tasks: Vec::new(), create_store: false },
        StoreRead::Loaded(tasks) => Recovered { tasks, create_store: false },
    }
}

} // verus!
