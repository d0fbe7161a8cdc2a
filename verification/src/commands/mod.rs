pub mod library_commands;
pub mod scan_commands;
