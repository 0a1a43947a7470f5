pub mod app_settings;
pub mod cli;
pub mod fs_util;
pub mod shell;
pub mod widget_pack;
pub mod widget_pack_manager;
