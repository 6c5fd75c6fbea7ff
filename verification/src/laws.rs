//! What holds of the operations, whatever the records and the caller.
use vstd::prelude::*;
use crate::error::{ErrorCode, TaskError};
use crate::instructions::{
    complete_task_step, create_task_step, delete_task_step, CompleteTaskView, CreateTaskView,
    DeleteTaskView,
};
use crate::validation::{MAX_DESCRIPTION_LENGTH, MIN_DESCRIPTION_LENGTH};

verus! {

/// A description of 5 to 500 characters that the index entry does not hold
/// is accepted when the clock reads `now`: the task belongs to the caller, is
/// not completed, bears the clock's reading and the description, and the entry
/// holds the description.
pub proof fn lemma_create_accepts(pre: CreateTaskView, description: Seq<char>, now: i64)
    requires
        MIN_DESCRIPTION_LENGTH <= description.len() <= MAX_DESCRIPTION_LENGTH,
        pre.task_description != description,
    ensures
        create_task_step(pre, description, Some(now)) matches Ok(post) && {
            &&& post.task.user == pre.user
            &&& post.task.description == description
            &&& !post.task.completed
            &&& post.task.created_at == now
            &&& post.task.valid()
            &&& post.task_description == description
            &&& post.user == pre.user
        },
{
}

/// Whenever a task is created, it belongs to the caller, is not completed,
/// bears the clock's reading and a description of 5 to 500 characters, and
/// the index entry holds that description.
pub proof fn lemma_created_task(pre: CreateTaskView, description: Seq<char>, reading: Option<i64>)
    ensures
        create_task_step(pre, description, reading) matches Ok(post) ==> {
            &&& post.task.user == pre.user
            &&& post.task.description == description
            &&& !post.task.completed
            &&& reading == Some(post.task.created_at)
            &&& post.task.valid()
            &&& MIN_DESCRIPTION_LENGTH <= post.task.description.len() <= MAX_DESCRIPTION_LENGTH
            &&& post.task_description == description
        },
{
}

/// A description of fewer than 5 or more than 500 characters is refused with
/// the error of its length, whatever the records, the caller and the clock.
pub proof fn lemma_create_refuses_length(
    pre: CreateTaskView,
    description: Seq<char>,
    reading: Option<i64>,
)
    ensures
        description.len() < MIN_DESCRIPTION_LENGTH ==> create_task_step(pre, description, reading)
            == Err::<CreateTaskView, TaskError>(
            TaskError::Domain(ErrorCode::DescriptionTooShort),
        ),
        description.len() > MAX_DESCRIPTION_LENGTH ==> create_task_step(pre, description, reading)
            == Err::<CreateTaskView, TaskError>(TaskError::Domain(ErrorCode::DescriptionTooLong)),
{
}

/// Once a task with a description was created, no second one can be: whoever
/// calls, whenever, and whatever record the task would be written to, the
/// index entry that the first creation left refuses the description.
pub proof fn lemma_create_twice_refused(
    first: CreateTaskView,
    description: Seq<char>,
    reading: Option<i64>,
    second: CreateTaskView,
    later: i64,
)
    requires
        create_task_step(first, description, reading) matches Ok(post) && second.task_description
            == post.task_description,
    ensures
        create_task_step(second, description, Some(later)) == Err::<CreateTaskView, TaskError>(
            TaskError::Domain(ErrorCode::TaskAlreadyExists),
        ),
{
}

/// The owner can complete a task that is not completed, and nobody can
/// complete a task twice in a row: the second request is refused.
pub proof fn lemma_complete_twice_refused(pre: CompleteTaskView)
    ensures
        pre.task.user == pre.user && !pre.task.completed ==> complete_task_step(pre, true) is Ok,
        complete_task_step(pre, true) matches Ok(post) ==> post.task.completed
            && complete_task_step(post, true) == Err::<CompleteTaskView, TaskError>(
            TaskError::Domain(ErrorCode::TaskAlreadyCompleted),
        ),
{
}

/// The owner's request to mark a task as not completed is taken whether the
/// task is completed or not.
pub proof fn lemma_uncomplete_accepted(pre: CompleteTaskView)
    requires
        pre.task.user == pre.user,
    ensures
        complete_task_step(pre, false) matches Ok(post) && !post.task.completed,
{
}

/// The owner can delete a task whose record has funds: the record loses them
/// all to the caller. Nobody can delete a task twice: the second request is
/// refused.
pub proof fn lemma_delete_twice_refused(pre: DeleteTaskView)
    ensures
        pre.task.user == pre.user && pre.task_lamports > 0 ==> delete_task_step(pre) is Ok,
        delete_task_step(pre) matches Ok(post) ==> {
            &&& post.task_lamports == 0
            &&& post.user_lamports == pre.user_lamports + pre.task_lamports
            &&& delete_task_step(post) == Err::<DeleteTaskView, TaskError>(
                TaskError::Domain(ErrorCode::TaskAlreadyDeleted),
            )
        },
{
}

/// A caller who is not the owner can neither mark nor delete a task, whatever
/// state the task is in.
pub proof fn lemma_stranger_refused(marking: CompleteTaskView, completed: bool, deleting: DeleteTaskView)
    ensures
        marking.task.user != marking.user ==> complete_task_step(marking, completed) == Err::<
            CompleteTaskView,
            TaskError,
        >(TaskError::Unauthorized),
        deleting.task.user != deleting.user ==> delete_task_step(deleting) == Err::<
            DeleteTaskView,
            TaskError,
        >(TaskError::Unauthorized),
{
}

/// Marking and deleting leave a task's owner, description and time of
/// creation as they were.
pub proof fn lemma_task_keeps_identity(marking: CompleteTaskView, completed: bool, deleting: DeleteTaskView)
    ensures
        complete_task_step(marking, completed) matches Ok(post) ==> {
            &&& post.task.user == marking.task.user
            &&& post.task.description == marking.task.description
            &&& post.task.created_at == marking.task.created_at
            &&& post.task.completed == completed
        },
        delete_task_step(deleting) matches Ok(post) ==> post.task == deleting.task,
{
}

} // verus!
