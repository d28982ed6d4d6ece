pub mod disk_meta;
pub mod file;
pub mod model;
