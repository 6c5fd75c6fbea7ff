use todo_dapp::{complete_task, CompleteTask, ErrorCode, Task, TaskError};

const ALICE: [u8; 32] = [1; 32];

fn task_of_alice(completed: bool) -> Task {
    Task { user: ALICE, description: String::from("Buy milk"), completed, created_at: 42 }
}

fn mallory() -> [u8; 32] {
    // differs from ALICE in the last byte only
    let mut id = ALICE;
    id[31] = 9;
    id
}

#[test]
fn complete_sets_the_flag() {
    let mut ctx = CompleteTask { task: task_of_alice(false), user: ALICE };
    assert_eq!(complete_task(&mut ctx, true), Ok(()));
    assert_eq!(ctx.task, task_of_alice(true));
    assert_eq!(ctx.user, ALICE);
}

#[test]
fn complete_twice_fails_the_second_time() {
    let mut ctx = CompleteTask { task: task_of_alice(false), user: ALICE };
    assert_eq!(complete_task(&mut ctx, true), Ok(()));
    assert_eq!(
        complete_task(&mut ctx, true),
        Err(TaskError::Domain(ErrorCode::TaskAlreadyCompleted))
    );
    assert_eq!(ctx.task, task_of_alice(true));
}

#[test]
fn uncomplete_is_taken_in_either_state() {
    let mut ctx = CompleteTask { task: task_of_alice(true), user: ALICE };
    assert_eq!(complete_task(&mut ctx, false), Ok(()));
    assert_eq!(ctx.task, task_of_alice(false));
    assert_eq!(complete_task(&mut ctx, false), Ok(()));
    assert_eq!(ctx.task, task_of_alice(false));
}

#[test]
fn a_task_can_be_completed_again_after_it_was_reopened() {
    let mut ctx = CompleteTask { task: task_of_alice(true), user: ALICE };
    assert_eq!(complete_task(&mut ctx, false), Ok(()));
    assert_eq!(complete_task(&mut ctx, true), Ok(()));
    assert!(ctx.task.completed);
}

#[test]
fn a_stranger_cannot_mark_a_task() {
    for state in [false, true] {
        for completed in [false, true] {
            let mut ctx = CompleteTask { task: task_of_alice(state), user: mallory() };
            let before = ctx.clone();
            assert_eq!(complete_task(&mut ctx, completed), Err(TaskError::Unauthorized));
            assert_eq!(ctx, before);
        }
    }
}

#[test]
fn a_stranger_is_told_so_before_the_state_is_looked_at() {
    let mut ctx = CompleteTask { task: task_of_alice(true), user: [0; 32] };
    assert_eq!(complete_task(&mut ctx, true), Err(TaskError::Unauthorized));
}
