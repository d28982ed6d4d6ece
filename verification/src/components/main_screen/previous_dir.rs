//! The left pane: the directory the user came from.
use vstd::prelude::*;
use crate::models::file::File;
use crate::components::main_screen::current_dir::clone_files;

verus! {

/// The directory shown on the left: its path, itself and its entries.
#[derive(Debug)]
pub struct PreviousDir {
    pub path: String,
    pub item: File,
    pub items: Vec<File>,
}

impl Clone for PreviousDir {
    fn clone(&self) -> (r: Self)
        ensures
            r.path == self.path,
            r.item == self.item,
            r.items@ == self.items@,
    {
        PreviousDir { path: self.path.clone(), item: self.item.clone(), items: clone_files(&self.items) }
    }
}

impl PreviousDir {
    /// The directory at `path`, shown on the left.
    pub fn new(path: String, item: File, items: Vec<File>) -> (r: Self)
        ensures
            r.path == path,
            r.item == item,
            r.items == items,
    {
        PreviousDir { path, item, items }
    }
}

}
