//! Task-tracking decision engine: identifiers, tasks with their query,
//! mutation and scoring rules, and the verb dispatcher over a task list.

pub mod id;
pub mod prop;
pub mod recur;
pub mod tag;

pub use id::{Id, NUMBER_OF_CHARS_IN_FULL_ID, VALID_ID_CHARS};
pub use prop::{Prop, Timestamp};
pub use recur::Recur;
pub use tag::{Sign, Tag};
pub mod engine;
pub mod task;

pub use engine::{CortexEngine, Mutation, Query};
pub use task::{FinalisedTask, Task, TaskView};
