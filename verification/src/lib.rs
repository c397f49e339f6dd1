mod text;
pub mod paths;
pub mod config;
pub mod desktop_entries;
pub mod launcher;
pub mod panel_actions;
pub mod system_actions;
pub mod panel_model;
pub mod window_management;
pub mod shell_identity;
pub mod window_manager;
pub mod diagnostics;
pub mod system_status;
pub mod panel_commands;
