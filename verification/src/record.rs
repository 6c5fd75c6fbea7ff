//! The two kinds of record, and what they are in contracts.
use vstd::prelude::*;
use crate::validation::{description_length_error, MAX_DESCRIPTION_LENGTH};

verus! {

/// The bytes that a stored task takes: the owner, the description behind its
/// length, the completion flag and the time of creation.
pub const TASK_SIZE: usize = 32 + 4 + MAX_DESCRIPTION_LENGTH + 1 + 8;

/// The bytes that a stored index entry takes: the description behind its
/// length.
pub const TASK_DESCRIPTION_SIZE: usize = 4 + MAX_DESCRIPTION_LENGTH;

/// One item of the list.
#[derive(Debug, PartialEq, Eq)]
pub struct Task {
    /// The identity that created the task, and the only one that may change
    /// or delete it.
    pub user: [u8; 32],
    /// What is to be done.
    pub description: String,
    /// Whether it has been done.
    pub completed: bool,
    /// The clock's reading when the task was created, in seconds.
    pub created_at: i64,
}

/// A task as contracts see it.
pub ghost struct TaskView {
    pub user: Seq<u8>,
    pub description: Seq<char>,
    pub completed: bool,
    pub created_at: i64,
}

impl TaskView {
    /// What holds of every task that was created: its description has a
    /// length that is accepted.
    pub open spec fn valid(self) -> bool {
        description_length_error(self.description) is None
    }
}

impl View for Task {
    type V = TaskView;

    open spec fn view(&self) -> TaskView {
        TaskView {
            user: self.user@,
            description: self.description@,
            completed: self.completed,
            created_at: self.created_at,
        }
    }
}

impl Clone for Task {
    fn clone(&self) -> (copy: Self)
        ensures
            copy == *self,
    {
        Task {
            user: self.user,
            description: self.description.clone(),
            completed: self.completed,
            created_at: self.created_at,
        }
    }
}

/// The index entry of a description: its presence says that a task with this
/// description was created. An entry that was never written holds the empty
/// text.
#[derive(Debug, PartialEq, Eq)]
pub struct TaskDescription {
    /// The description, once more, to compare with.
    pub description: String,
}

impl View for TaskDescription {
    type V = Seq<char>;

    open spec fn view(&self) -> Seq<char> {
        self.description@
    }
}

impl Clone for TaskDescription {
    fn clone(&self) -> (copy: Self)
        ensures
            copy == *self,
    {
        TaskDescription { description: self.description.clone() }
    }
}

/// Whether two identities are the same.
pub fn same_identity(a: &[u8; 32], b: &[u8; 32]) -> (same: bool)
    ensures
        same == (a@ == b@),
{
    let mut i: usize = 0;
    while i < 32
        invariant
            i <= 32,
            forall|j: int| 0 <= j < i ==> a@[j] == b@[j],
        decreases 32 - i,
    {
        if a[i] != b[i] {
            return false;
        }
        i += 1;
    }
    assert(a@ =~= b@);
    true
}

} // verus!
