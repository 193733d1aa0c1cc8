//! State of what is shown to the user, apart from how it is drawn.

pub mod profile_select;
pub mod recipe;
pub mod response_view;
pub mod state;
