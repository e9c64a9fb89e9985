//! Status bar text.
use vstd::prelude::*;
use crate::models::filter::Filter;
use crate::models::priority::Priority;
use crate::text::{concat, string_from};

verus! {

/// The name of a priority, as `Debug` prints it.
pub open spec fn priority_name(p: Priority) -> Seq<char> {
    match p {
        Priority::Low => "Low"@,
        Priority::Medium => "Medium"@,
        Priority::High => "High"@,
        Priority::Urgent => "Urgent"@,
    }
}

/// The name of a priority (executable [`priority_name`]).
pub fn priority_label(p: Priority) -> (r: &'static str)
    ensures
        r@ == priority_name(p),
{
    match p {
        Priority::Low => "Low",
        Priority::Medium => "Medium",
        Priority::High => "High",
        Priority::Urgent => "Urgent",
    }
}

/// How the status bar names a filter; the default filter, `Pending`, is not shown.
pub open spec fn filter_name(f: Filter) -> Seq<char> {
    match f {
        Filter::Pending => Seq::empty(),
        Filter::All => "All"@,
        Filter::Completed => "Completed"@,
        Filter::InProgress => "In Progress"@,
        Filter::Archived => "Archived"@,
        Filter::DueToday => "Due Today"@,
        Filter::DueThisWeek => "Due This Week"@,
        Filter::Overdue => "Overdue"@,
        Filter::ByProject(id) => "Project: "@ + id@,
        Filter::ByTag(t) => "Tag: "@ + t@,
        Filter::ByPriority(p) => "Priority: "@ + priority_name(p),
    }
}

/// Gets a display name for a filter.
pub fn filter_display_name(filter: &Filter) -> (r: String)
    ensures
        r@ == filter_name(*filter),
{
    match filter {
        Filter::Pending => String::new(),
        Filter::All => string_from("All"),
        Filter::Completed => string_from("Completed"),
        Filter::InProgress => string_from("In Progress"),
        Filter::Archived => string_from("Archived"),
        Filter::DueToday => string_from("Due Today"),
        Filter::DueThisWeek => string_from("Due This Week"),
        Filter::Overdue => string_from("Overdue"),
        Filter::ByProject(id) => concat("Project: ", id.as_str()),
        Filter::ByTag(tag) => concat("Tag: ", tag.as_str()),
        Filter::ByPriority(p) => concat("Priority: ", priority_label(*p)),
    }
}

} // verus!
