//! The ways in which an operation on a task can fail.
use vstd::prelude::*;

verus! {

/// Why the rules of the task list refuse an operation.
#[derive(Clone, Copy, Debug, PartialEq, Eq, Structural)]
pub enum ErrorCode {
    /// The task is completed, and was asked to be completed again.
    TaskAlreadyCompleted,
    /// The task's record has been reclaimed.
    TaskAlreadyDeleted,
    /// The index holds an entry with this description.
    TaskAlreadyExists,
    /// The description has more characters than a task may have.
    DescriptionTooLong,
    /// The description has fewer characters than a task must have.
    DescriptionTooShort,
}

impl ErrorCode {
    /// The sentence that `message` returns for this error.
    pub open spec fn message_text(self) -> Seq<char> {
        match self {
            ErrorCode::TaskAlreadyCompleted => "The task is already marked as completed."@,
            ErrorCode::TaskAlreadyDeleted => "The task has already been deleted."@,
            ErrorCode::TaskAlreadyExists => "The task already exists."@,
            ErrorCode::DescriptionTooLong => "The task description is too long."@,
            ErrorCode::DescriptionTooShort => "The task description is too short."@,
        }
    }

    /// A sentence for the person who made the call.
    pub fn message(&self) -> (text: &'static str)
        ensures
            text@ == self.message_text(),
    {
        match self {
            ErrorCode::TaskAlreadyCompleted => "The task is already marked as completed.",
            ErrorCode::TaskAlreadyDeleted => "The task has already been deleted.",
            ErrorCode::TaskAlreadyExists => "The task already exists.",
            ErrorCode::DescriptionTooLong => "The task description is too long.",
            ErrorCode::DescriptionTooShort => "The task description is too short.",
        }
    }
}

/// Why an operation failed: a rule of the task list, or something that stands
/// before the rules.
#[derive(Clone, Copy, Debug, PartialEq, Eq, Structural)]
pub enum TaskError {
    /// The caller is not the owner of the task.
    Unauthorized,
    /// The clock gave no reading.
    ClockUnavailable,
    /// A rule of the task list refused the operation.
    Domain(ErrorCode),
}

} // verus!
