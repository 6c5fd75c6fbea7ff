//! A task list kept as records: one record per task, owned by the identity
//! that created it, and one index entry per description text, found under a
//! digest of the text.
//!
//! Three operations change records: [`create_task`], [`complete_task`] and
//! [`delete_task`]. Each takes the records it works on as plain values, checks
//! them, and either changes them or returns an error and leaves them as they
//! were. Where the records are kept, and who signed a call, is the caller's
//! business.
//!
//! What each operation does is a function of the records as contracts see
//! them ([`create_task_step`], [`complete_task_step`], [`delete_task_step`]);
//! [`laws`] holds what follows from them for every record and every caller.
pub mod clock;
pub mod error;
pub mod instructions;
pub mod laws;
pub mod record;
pub mod seed;
pub mod validation;

pub use error::{ErrorCode, TaskError};
pub use instructions::{
    complete_task, complete_task_step, create_task, create_task_at, create_task_step,
    delete_task, delete_task_step, CompleteTask, CompleteTaskView, CreateTask, CreateTaskView,
    DeleteTask, DeleteTaskView,
};
pub use record::{
    same_identity, Task, TaskDescription, TaskView, TASK_DESCRIPTION_SIZE, TASK_SIZE,
};
pub use seed::{description_seed, seed_of_description, seed_of_digest, sha256, SEED_LENGTH};
pub use validation::{
    description_length_error, validate_description_length, MAX_DESCRIPTION_LENGTH,
    MIN_DESCRIPTION_LENGTH,
};
