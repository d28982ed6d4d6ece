pub mod common;
pub mod dir_reader;
pub mod file_downloader;
pub mod path;
pub mod text;
