//! What the application keeps in its database: tags, the text form of task
//! fields, the SQL clauses that select tasks, and schema versions.
pub mod codec;
pub mod migrations;
pub mod tags;

pub use tags::Tag;
