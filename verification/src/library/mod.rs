pub mod file_path;
pub mod metadata;
pub mod scanner;
pub mod supported_formats;
