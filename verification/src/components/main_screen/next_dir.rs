//! The right pane: a preview of the selected directory.
use vstd::prelude::*;
use crate::models::file::File;
use crate::components::main_screen::current_dir::clone_files;

verus! {

/// The directory previewed on the right: its path, itself and its entries.
#[derive(Debug)]
pub struct NextDir {
    pub path: String,
    pub item: File,
    pub items: Vec<File>,
}

impl Clone for NextDir {
    fn clone(&self) -> (r: Self)
        ensures
            r.path == self.path,
            r.item == self.item,
            r.items@ == self.items@,
    {
        NextDir { path: self.path.clone(), item: self.item.clone(), items: clone_files(&self.items) }
    }
}

impl NextDir {
    /// The preview of the directory at `path`.
    pub fn new(path: String, item: File, items: Vec<File>) -> (r: Self)
        ensures
            r.path == path,
            r.item == item,
            r.items == items,
    {
        NextDir { path, item, items }
    }
}

}
