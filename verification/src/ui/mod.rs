//! What the panels of the window decide, apart from drawing: each panel
//! reports what the user asked for as an `Action`, which the application
//! applies in one place.

pub mod file_list;
pub mod missing_vips;
pub mod preview_panel;
pub mod settings_panel;
pub mod toolbar;
