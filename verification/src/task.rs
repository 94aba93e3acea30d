use vstd::prelude::*;
use vstd::string::StringExecFns;

verus! {

/// One to-do item. A task has no identity of its own: its position in the
/// list is its only address.
#[derive(Debug, Clone, PartialEq, Eq)]
pub struct Task {
    pub description: String,
}

impl View for Task {
    type V = Seq<char>;

    open spec fn view(&self) -> Seq<char> {
        self.description@
    }
}

/// Why a change to a task list was refused.
#[derive(Debug, Clone, PartialEq, Eq)]
pub enum ListError {
    /// The position named no task: `index` was not below `len`.
    IndexOutOfRange { index: usize, len: usize },
}

/// The ordered collection of tasks. Its view is the sequence of the
/// descriptions, in listing order.
#[derive(Debug, Clone, PartialEq, Eq)]
pub struct TaskList {
    pub tasks: Vec<Task>,
}

impl View for TaskList {
    type V = Seq<Seq<char>>;

    open spec fn view(&self) -> Seq<Seq<char>> {
        self.tasks@.map_values(|t: Task| t@)
    }
}

/// The text reported when stored content could not be decoded: a fixed
/// prefix followed by the decoder's own message.
pub open spec fn load_diagnostic(reason: Seq<char>) -> Seq<char> {
    "failed to read file: "@ + reason
}

/// The descriptions of a sequence of tasks, in order.
pub open spec fn descriptions_of(tasks: Seq<Task>) -> Seq<Seq<char>> {
    tasks.map_values(|t: Task| t@)
}

impl TaskList {
    /// An empty list.
    pub fn create() -> (list: TaskList)
        ensures
            list@ == Seq::<Seq<char>>::empty(),
    {
        let list = TaskList { tasks: Vec::new() };
        assert(list@ =~= Seq::<Seq<char>>::empty());
        list
    }

    /// Decides what the list is after the stored content was read and
    /// decoded. Decoded tasks are taken as they are, in their order.
    /// Content that could not be decoded resets the list to empty, and the
    /// decoder's message comes back as a diagnostic to report.
    pub fn load(decoded: Result<Vec<Task>, String>) -> (r: (TaskList, Option<String>))
        ensures
            decoded is Ok ==> r.0@ == descriptions_of(decoded->Ok_0@) && r.1 is None,
            decoded is Err ==> r.0@ == Seq::<Seq<char>>::empty() && r.1 is Some
                && r.1->Some_0@ == load_diagnostic(decoded->Err_0@),
    {
        match decoded {
            Ok(tasks) => (TaskList { tasks }, None),
            Err(reason) => {
                let message = String::from_str("failed to read file: ").concat(reason.as_str());
                (TaskList::create(), Some(message))
            },
        }
    }

    /// The number of tasks.
    pub fn len(&self) -> (n: usize)
        ensures
            n == self@.len(),
    {
        self.tasks.len()
    }

    /// Appends `task` at the end; every task already there keeps its place.
    pub fn add(&mut self, task: Task)
        ensures
            final(self)@ == old(self)@.push(task@),
    {
        self.tasks.push(task);
        assert(self@ =~= old(self)@.push(task@));
    }

    /// Removes the task at `index` (counted from zero, as listed); the tasks
    /// behind it move one place forward. An index that names no task is
    /// refused and the list stays as it was.
    pub fn remove(&mut self, index: usize) -> (r: Result<(), ListError>)
        ensures
            index < old(self)@.len() ==> r is Ok && final(self)@ == old(self)@.remove(
                index as int,
            ),
            index >= old(self)@.len() ==> r == Err::<(), ListError>(
                ListError::IndexOutOfRange { index, len: old(self).tasks.len() },
            ) && *final(self) == *old(self),
    {
        let len = self.tasks.len();
        if index < len {
            let _ = self.tasks.remove(index);
            assert(self@ =~= old(self)@.remove(index as int));
            Ok(())
        } else {
            Err(ListError::IndexOutOfRange { index, len })
        }
    }
}

} // verus!
