//! The three operations, each with the records it works on.
use vstd::prelude::*;
use crate::clock::clock_unix_timestamp;
use crate::error::{ErrorCode, TaskError};
use crate::record::{same_identity, Task, TaskDescription, TaskView};
use crate::validation::{description_length_error, validate_description_length};

verus! {

/// What `create_task` works on.
#[derive(Debug, PartialEq, Eq)]
pub struct CreateTask {
    /// The record that the new task is written to.
    pub task: Task,
    /// The index entry found under the seed of the description.
    pub task_description: TaskDescription,
    /// The caller, who will own the task.
    pub user: [u8; 32],
}

impl Clone for CreateTask {
    fn clone(&self) -> (copy: Self)
        ensures
            copy == *self,
    {
        CreateTask {
            task: self.task.clone(),
            task_description: self.task_description.clone(),
            user: self.user,
        }
    }
}

/// What `create_task` works on, as contracts see it.
pub ghost struct CreateTaskView {
    pub task: TaskView,
    pub task_description: Seq<char>,
    pub user: Seq<u8>,
}

impl View for CreateTask {
    type V = CreateTaskView;

    open spec fn view(&self) -> CreateTaskView {
        CreateTaskView {
            task: self.task@,
            task_description: self.task_description@,
            user: self.user@,
        }
    }
}

/// What creating a task with `description` leads to, where `reading` is what
/// the clock gave: the records as they are afterwards, or the reason why
/// nothing is created.
///
/// The length is judged first, then the clock: without a reading no task is
/// created. A description that the index entry already holds is refused.
/// Otherwise the task belongs to the caller, is not completed and bears the
/// clock's reading, and the entry holds the description.
pub open spec fn create_task_step(
    pre: CreateTaskView,
    description: Seq<char>,
    reading: Option<i64>,
) -> Result<CreateTaskView, TaskError> {
    if let Some(e) = description_length_error(description) {
        Err(TaskError::Domain(e))
    } else if reading is None {
        Err(TaskError::ClockUnavailable)
    } else if pre.task_description == description {
        Err(TaskError::Domain(ErrorCode::TaskAlreadyExists))
    } else {
        Ok(
            CreateTaskView {
                task: TaskView {
                    user: pre.user,
                    description: description,
                    completed: false,
                    created_at: reading->0,
                },
                task_description: description,
                user: pre.user,
            },
        )
    }
}

/// Creates a task with `description`, owned by the caller, where `reading` is
/// what the clock gave, and notes the description in the index entry. On an
/// error the records stay as they were.
pub fn create_task_at(ctx: &mut CreateTask, description: String, reading: Option<i64>) -> (r:
    Result<(), TaskError>)
    ensures
        match create_task_step(old(ctx)@, description@, reading) {
            Ok(post) => r is Ok && final(ctx)@ == post,
            Err(e) => r == Err::<(), TaskError>(e) && *final(ctx) == *old(ctx),
        },
{
    match validate_description_length(&description) {
        Err(e) => {
            return Err(TaskError::Domain(e));
        },
        Ok(()) => {},
    }
    let now: i64 = match reading {
        Some(now) => now,
        None => {
            return Err(TaskError::ClockUnavailable);
        },
    };
    if ctx.task_description.description == description {
        return Err(TaskError::Domain(ErrorCode::TaskAlreadyExists));
    }
    ctx.task.user = ctx.user;
    ctx.task.description = description.clone();
    ctx.task.completed = false;
    ctx.task.created_at = now;
    ctx.task_description.description = description;
    Ok(())
}

/// Creates a task with `description`, owned by the caller and created at the
/// time that the clock gives. On an error the records stay as they were.
///
/// The length is judged before the clock is read. What then happens is what
/// `create_task_at` does with the clock's answer, whatever that is.
pub fn create_task(ctx: &mut CreateTask, description: String) -> (r: Result<(), TaskError>)
    ensures
        exists|reading: Option<i64>|
            match #[trigger] create_task_step(old(ctx)@, description@, reading) {
                Ok(post) => r is Ok && final(ctx)@ == post,
                Err(e) => r == Err::<(), TaskError>(e) && *final(ctx) == *old(ctx),
            },
        description_length_error(description@) matches Some(e) ==> r == Err::<(), TaskError>(
            TaskError::Domain(e),
        ),
{
    match validate_description_length(&description) {
        Err(e) => {
            // The length is judged first, so any reading bears witness.
            assert(create_task_step(old(ctx)@, description@, None) is Err);
            return Err(TaskError::Domain(e));
        },
        Ok(()) => {},
    }
    let reading: Option<i64> = match clock_unix_timestamp() {
        Ok(now) => Some(now),
        Err(_) => None,
    };
    create_task_at(ctx, description, reading)
}

/// What `complete_task` works on.
#[derive(Debug, PartialEq, Eq)]
pub struct CompleteTask {
    /// The task to mark.
    pub task: Task,
    /// The caller.
    pub user: [u8; 32],
}

impl Clone for CompleteTask {
    fn clone(&self) -> (copy: Self)
        ensures
            copy == *self,
    {
        CompleteTask { task: self.task.clone(), user: self.user }
    }
}

/// What `complete_task` works on, as contracts see it.
pub ghost struct CompleteTaskView {
    pub task: TaskView,
    pub user: Seq<u8>,
}

impl View for CompleteTask {
    type V = CompleteTaskView;

    open spec fn view(&self) -> CompleteTaskView {
        CompleteTaskView { task: self.task@, user: self.user@ }
    }
}

/// What setting a task's completion to `completed` leads to.
///
/// Only the owner may do it. A completed task cannot be completed again; every
/// other request is taken, and changes nothing but the flag.
pub open spec fn complete_task_step(pre: CompleteTaskView, completed: bool) -> Result<
    CompleteTaskView,
    TaskError,
> {
    if pre.task.user != pre.user {
        Err(TaskError::Unauthorized)
    } else if pre.task.completed && completed {
        Err(TaskError::Domain(ErrorCode::TaskAlreadyCompleted))
    } else {
        Ok(CompleteTaskView { task: TaskView { completed: completed, ..pre.task }, ..pre })
    }
}

/// Sets the task's completion to `completed`. On an error the records stay as
/// they were.
pub fn complete_task(ctx: &mut CompleteTask, completed: bool) -> (r: Result<(), TaskError>)
    ensures
        match complete_task_step(old(ctx)@, completed) {
            Ok(post) => r is Ok && final(ctx)@ == post,
            Err(e) => r == Err::<(), TaskError>(e) && *final(ctx) == *old(ctx),
        },
{
    if !same_identity(&ctx.task.user, &ctx.user) {
        return Err(TaskError::Unauthorized);
    }
    if ctx.task.completed && completed {
        return Err(TaskError::Domain(ErrorCode::TaskAlreadyCompleted));
    }
    ctx.task.completed = completed;
    Ok(())
}

/// What `delete_task` works on.
#[derive(Debug, PartialEq, Eq)]
pub struct DeleteTask {
    /// The task to delete.
    pub task: Task,
    /// The funds that keep the task's record. A record without funds has been
    /// reclaimed: the task no longer exists.
    pub task_lamports: u64,
    /// The caller.
    pub user: [u8; 32],
    /// The caller's funds.
    pub user_lamports: u64,
}

impl Clone for DeleteTask {
    fn clone(&self) -> (copy: Self)
        ensures
            copy == *self,
    {
        DeleteTask {
            task: self.task.clone(),
            task_lamports: self.task_lamports,
            user: self.user,
            user_lamports: self.user_lamports,
        }
    }
}

/// What `delete_task` works on, as contracts see it.
pub ghost struct DeleteTaskView {
    pub task: TaskView,
    pub task_lamports: nat,
    pub user: Seq<u8>,
    pub user_lamports: nat,
}

impl View for DeleteTask {
    type V = DeleteTaskView;

    open spec fn view(&self) -> DeleteTaskView {
        DeleteTaskView {
            task: self.task@,
            task_lamports: self.task_lamports as nat,
            user: self.user@,
            user_lamports: self.user_lamports as nat,
        }
    }
}

/// What deleting a task leads to.
///
/// Only the owner may do it, and only while the record has funds. All of them
/// go to the caller.
pub open spec fn delete_task_step(pre: DeleteTaskView) -> Result<DeleteTaskView, TaskError> {
    if pre.task.user != pre.user {
        Err(TaskError::Unauthorized)
    } else if pre.task_lamports == 0 {
        Err(TaskError::Domain(ErrorCode::TaskAlreadyDeleted))
    } else {
        Ok(
            DeleteTaskView {
                task_lamports: 0,
                user_lamports: pre.user_lamports + pre.task_lamports,
                ..pre
            },
        )
    }
}

/// Deletes the task: reclaims the funds of its record for the caller. On an
/// error the records stay as they were.
///
/// The caller's funds must be able to take those of the record.
pub fn delete_task(ctx: &mut DeleteTask) -> (r: Result<(), TaskError>)
    requires
        delete_task_step(old(ctx)@) matches Ok(post) ==> post.user_lamports <= u64::MAX,
    ensures
        match delete_task_step(old(ctx)@) {
            Ok(post) => r is Ok && final(ctx)@ == post,
            Err(e) => r == Err::<(), TaskError>(e) && *final(ctx) == *old(ctx),
        },
{
    if !same_identity(&ctx.task.user, &ctx.user) {
        return Err(TaskError::Unauthorized);
    }
    if ctx.task_lamports == 0 {
        return Err(TaskError::Domain(ErrorCode::TaskAlreadyDeleted));
    }
    ctx.user_lamports = ctx.user_lamports + ctx.task_lamports;
    ctx.task_lamports = 0;
    Ok(())
}

} // verus!
