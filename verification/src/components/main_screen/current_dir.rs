//! The middle pane: the directory the user is in, with its selected entry.
use vstd::prelude::*;
use crate::error::AppError;
use crate::models::file::File;

verus! {

/// The directory the user is in: its path, the directory itself, its entries, the index
/// of the selected entry (if any) and the first entry shown when the list scrolls.
#[derive(Debug)]
pub struct CurrentDir {
    pub path: String,
    pub item: File,
    pub items: Vec<File>,
    pub selected: Option<usize>,
    pub offset: usize,
}

/// The selection after moving down: one past the current one (staying at the largest
/// index), or the first entry when nothing was selected. The index may pass the last entry;
/// drawing the list brings it back.
pub open spec fn next_selection(selected: Option<usize>) -> Option<usize> {
    match selected {
        Some(i) => Some(if i == usize::MAX { i } else { (i + 1) as usize }),
        None => Some(0),
    }
}

/// The selection after moving up: one before the current one (staying at the first), or
/// the largest index when nothing was selected, which drawing turns into the last entry.
pub open spec fn previous_selection(selected: Option<usize>) -> Option<usize> {
    match selected {
        Some(i) => Some(if i == 0 { 0 } else { (i - 1) as usize }),
        None => Some(usize::MAX),
    }
}

/// The selection points at one of `len` entries.
pub open spec fn has_selection(selected: Option<usize>, len: nat) -> bool {
    selected matches Some(i) && i < len
}

impl Clone for CurrentDir {
    fn clone(&self) -> (r: Self)
        ensures
            r.path == self.path,
            r.item == self.item,
            r.items@ == self.items@,
            r.selected == self.selected,
            r.offset == self.offset,
    {
        CurrentDir {
            path: self.path.clone(),
            item: self.item.clone(),
            items: clone_files(&self.items),
            selected: self.selected,
            offset: self.offset,
        }
    }
}

/// A copy of a list of entries.
pub fn clone_files(files: &Vec<File>) -> (r: Vec<File>)
    ensures
        r@ == files@,
{
    let mut out: Vec<File> = Vec::new();
    let mut i: usize = 0;
    while i < files.len()
        invariant
            i <= files.len(),
            out@ == files@.take(i as int),
        decreases files.len() - i,
    {
        out.push(files[i].clone());
        assert(files@.take(i + 1) =~= files@.take(i as int).push(files@[i as int]));
        i = i + 1;
    }
    assert(files@.take(files.len() as int) =~= files@);
    out
}

impl CurrentDir {
    /// The directory at `path` with its first entry selected.
    pub fn new(path: String, item: File, items: Vec<File>) -> (r: Self)
        ensures
            r.path == path,
            r.item == item,
            r.items == items,
            r.selected == Some(0usize),
            r.offset == 0,
    {
        CurrentDir { path, item, items, selected: Some(0), offset: 0 }
    }

    /// The same directory with fresh content; the path and the selection are kept.
    pub fn update(&self, item: File, items: Vec<File>) -> (r: Self)
        ensures
            r.path == self.path,
            r.item == item,
            r.items == items,
            r.selected == self.selected,
            r.offset == self.offset,
    {
        CurrentDir {
            path: self.path.clone(),
            item,
            items,
            selected: self.selected,
            offset: self.offset,
        }
    }

    /// The selected entry; `MissingSelectedElelement` when nothing is selected or the
    /// index is past the last entry.
    pub fn selected_file(&self) -> (r: Result<File, AppError>)
        ensures
            has_selection(self.selected, self.items@.len()) ==> r == Ok::<File, AppError>(
                self.items@[self.selected->Some_0 as int],
            ),
            !has_selection(self.selected, self.items@.len()) ==> (r matches Err(
                AppError::MissingSelectedElelement,
            )),
    {
        match self.selected {
            Some(i) => {
                if i < self.items.len() {
                    Ok(self.items[i].clone())
                } else {
                    Err(AppError::MissingSelectedElelement)
                }
            },
            None => Err(AppError::MissingSelectedElelement),
        }
    }

    /// Moves the selection down (see `next_selection`).
    pub fn select_next(&mut self)
        ensures
            final(self).selected == next_selection(old(self).selected),
            final(self).offset == old(self).offset,
            final(self).path == old(self).path,
            final(self).item == old(self).item,
            final(self).items == old(self).items,
    {
        let next = match self.selected {
            Some(i) => if i == usize::MAX {
                i
            } else {
                i + 1
            },
            None => 0,
        };
        self.selected = Some(next);
    }

    /// Moves the selection up (see `previous_selection`).
    pub fn select_previous(&mut self)
        ensures
            final(self).selected == previous_selection(old(self).selected),
            final(self).offset == old(self).offset,
            final(self).path == old(self).path,
            final(self).item == old(self).item,
            final(self).items == old(self).items,
    {
        let previous = match self.selected {
            Some(i) => if i == 0 {
                0
            } else {
                i - 1
            },
            None => usize::MAX,
        };
        self.selected = Some(previous);
    }
}

/// Moving down and then up comes back to the same entry, unless the selection was already
/// at the largest index, where moving down stays put.
pub proof fn lemma_down_then_up(i: usize)
    requires
        i < usize::MAX,
    ensures
        previous_selection(next_selection(Some(i))) == Some(i),
{
}

/// Moving up and then down comes back to the same entry, unless the first entry was
/// selected, where moving up stays put.
pub proof fn lemma_up_then_down(i: usize)
    requires
        i > 0,
    ensures
        next_selection(previous_selection(Some(i))) == Some(i),
{
}

}
