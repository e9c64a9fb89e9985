//! Identifiers and date helpers.
pub mod datetime;
pub mod ids;

pub use datetime::{
    days_until, format_due_date, format_relative_date, is_same_day, is_this_week, is_today, now,
};
pub use ids::generate_id;
