//! Interface state: text widgets, dialogs and display helpers.
pub mod input;
pub mod description_textarea;
pub mod tag_input;
pub mod calendar;
pub mod date_picker;
pub mod dialogs;
pub mod effects;
pub mod layout;
pub mod search;
pub mod status_bar;
pub mod task_list;
pub mod theme;
