//! Data models: tasks, projects, priorities, statuses, filters and sort orders.
pub mod filter;
pub mod priority;
pub mod project;
pub mod task;

pub use filter::{Filter, SortOrder};
pub use priority::Priority;
pub use project::Project;
pub use task::{Task, TaskStatus};
