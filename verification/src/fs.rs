//! The three panes and how moving through the tree changes them. Reading directories is
//! left to the caller: each step says which directory to read next, and takes the result.
use vstd::prelude::*;
use crate::components::main_screen::current_dir::{CurrentDir, has_selection, next_selection, previous_selection, clone_files};
use crate::components::main_screen::next_dir::NextDir;
use crate::components::main_screen::previous_dir::PreviousDir;
use crate::error::AppError;
use crate::models::file::File;
use crate::utils::path::{
    components_of, file_name_of, is_join_base, is_plain_name, join, joined, lemma_file_name_of_joined,
    lemma_parent_of_joined, parent, parent_of, same_path, trim_end,
};
use crate::utils::text::same_text;

verus! {

/// The directory the user came from, the one they are in, and the preview of the selected
/// directory.
#[derive(Debug)]
pub struct DirPanes {
    pub previous_dir: Option<PreviousDir>,
    pub current_dir: CurrentDir,
    pub next_dir: Option<NextDir>,
}

/// The entry selected in `cur`, when there is one.
pub open spec fn selected_entry(cur: CurrentDir) -> Option<File> {
    if has_selection(cur.selected, cur.items@.len()) {
        Some(cur.items@[cur.selected->Some_0 as int])
    } else {
        None
    }
}

/// The directory to preview for `cur`: the selected entry's path when it is a directory,
/// nothing when it is a file, and an error when nothing is selected.
pub open spec fn preview_target(cur: CurrentDir) -> Option<Option<Seq<char>>> {
    match selected_entry(cur) {
        Some(f) => if f.file_type is Dir {
            Some(Some(joined(cur.path@, f.name@)))
        } else {
            Some(None)
        },
        None => None,
    }
}

/// The path of the first entry of a listing when it is a directory.
pub open spec fn first_dir_target(base: Seq<char>, items: Seq<File>) -> Option<Seq<char>> {
    if items.len() > 0 && items[0].file_type is Dir {
        Some(joined(base, items[0].name@))
    } else {
        None
    }
}

/// The left pane shows `cur`: same path, directory and entries.
pub open spec fn left_pane_holds(prev: Option<PreviousDir>, cur: CurrentDir) -> bool {
    match prev {
        Some(p) => p.path == cur.path && p.item == cur.item && p.items@ == cur.items@,
        None => false,
    }
}

fn same_string(a: &String, b: &String) -> (r: bool)
    ensures
        r == (a@ == b@),
{
    same_text(a.as_str(), b.as_str())
}

impl Clone for DirPanes {
    fn clone(&self) -> (r: Self)
        ensures
            r.current_dir.path == self.current_dir.path,
            r.current_dir.item == self.current_dir.item,
            r.current_dir.items@ == self.current_dir.items@,
            r.current_dir.selected == self.current_dir.selected,
            r.current_dir.offset == self.current_dir.offset,
            r.previous_dir is Some <==> self.previous_dir is Some,
            self.previous_dir matches Some(p) ==> (r.previous_dir matches Some(q) && q.path == p.path
                && q.item == p.item && q.items@ == p.items@),
            r.next_dir is Some <==> self.next_dir is Some,
            self.next_dir matches Some(n) ==> (r.next_dir matches Some(m) && m.path == n.path
                && m.item == n.item && m.items@ == n.items@),
    {
        DirPanes {
            previous_dir: match &self.previous_dir {
                Some(p) => Some(p.clone()),
                None => None,
            },
            current_dir: self.current_dir.clone(),
            next_dir: match &self.next_dir {
                Some(n) => Some(n.clone()),
                None => None,
            },
        }
    }
}

impl DirPanes {
    /// The panes of a fresh start at the root `/`, and the directory to preview: the first
    /// entry of the root when it is a directory.
    pub fn create(item: File, items: Vec<File>) -> (r: (DirPanes, Option<String>))
        ensures
            r.0.previous_dir is None,
            r.0.next_dir is None,
            r.0.current_dir.path@ == "/"@,
            r.0.current_dir.item == item,
            r.0.current_dir.items == items,
            r.0.current_dir.selected == Some(0usize),
            r.0.current_dir.offset == 0,
            r.1 is None <==> first_dir_target("/"@, items@) is None,
            r.1 matches Some(p) ==> first_dir_target("/"@, items@) == Some(p@),
    {
        let root = String::from_str("/");
        let target = if items.len() > 0 && items[0].is_dir() {
            Some(join(root.as_str(), items[0].name.as_str()))
        } else {
            None
        };
        let panes = DirPanes {
            previous_dir: None,
            current_dir: CurrentDir::new(root, item, items),
            next_dir: None,
        };
        (panes, target)
    }

    /// Moves the selection down and drops the preview, which no longer matches.
    pub fn select_next_element(&mut self)
        ensures
            final(self).current_dir.selected == next_selection(old(self).current_dir.selected),
            final(self).current_dir.path == old(self).current_dir.path,
            final(self).current_dir.items == old(self).current_dir.items,
            final(self).next_dir is None,
            final(self).previous_dir == old(self).previous_dir,
    {
        self.current_dir.select_next();
        self.next_dir = None;
    }

    /// Moves the selection up and drops the preview, which no longer matches.
    pub fn select_previous_element(&mut self)
        ensures
            final(self).current_dir.selected == previous_selection(
                old(self).current_dir.selected,
            ),
            final(self).current_dir.path == old(self).current_dir.path,
            final(self).current_dir.items == old(self).current_dir.items,
            final(self).next_dir is None,
            final(self).previous_dir == old(self).previous_dir,
    {
        self.current_dir.select_previous();
        self.next_dir = None;
    }

    /// The directory to preview for the current selection (see `preview_target`);
    /// `MissingSelectedElelement` when nothing is selected.
    pub fn next_dir_path(&self) -> (r: Result<Option<String>, AppError>)
        ensures
            preview_target(self.current_dir) is None ==> (r matches Err(
                AppError::MissingSelectedElelement,
            )),
            preview_target(self.current_dir) == Some(None::<Seq<char>>) ==> r matches Ok(None),
            preview_target(self.current_dir) matches Some(Some(p)) ==> (r matches Ok(Some(s))
                && s@ == p),
    {
        let selected = match self.current_dir.selected_file() {
            Ok(f) => f,
            Err(e) => return Err(e),
        };
        if selected.is_dir() {
            Ok(Some(join(self.current_dir.path.as_str(), selected.name.as_str())))
        } else {
            Ok(None)
        }
    }

    /// First step of entering the selected entry. For a directory the current directory
    /// moves to the left pane and the path to read is returned; for a file nothing changes.
    /// `MissingSelectedElelement` when nothing is selected.
    pub fn begin_open_selected(&mut self) -> (r: Result<Option<String>, AppError>)
        ensures
            preview_target(old(self).current_dir) is None ==> (r matches Err(
                AppError::MissingSelectedElelement,
            )) && *final(self) == *old(self),
            preview_target(old(self).current_dir) == Some(None::<Seq<char>>) ==> (r matches Ok(
                None,
            )) && *final(self) == *old(self),
            preview_target(old(self).current_dir) matches Some(Some(p)) ==> (r matches Ok(
                Some(s),
            ) && s@ == p),
            preview_target(old(self).current_dir) matches Some(Some(_)) ==> left_pane_holds(
                final(self).previous_dir,
                old(self).current_dir,
            ) && final(self).current_dir == old(self).current_dir && final(self).next_dir
                == old(self).next_dir,
    {
        let selected = match self.current_dir.selected_file() {
            Ok(f) => f,
            Err(e) => return Err(e),
        };
        if selected.is_dir() {
            let path = join(self.current_dir.path.as_str(), selected.name.as_str());
            self.previous_dir = Some(
                PreviousDir::new(
                    self.current_dir.path.clone(),
                    self.current_dir.item.clone(),
                    clone_files(&self.current_dir.items),
                ),
            );
            Ok(Some(path))
        } else {
            Ok(None)
        }
    }

    /// Second step of entering a directory: it becomes the current one, with its first
    /// entry selected and no preview. Returns whether it has entries, in which case the
    /// caller looks up the preview target.
    pub fn enter_dir(&mut self, path: String, item: File, items: Vec<File>) -> (has_entries: bool)
        ensures
            has_entries == (items@.len() > 0),
            final(self).current_dir.path == path,
            final(self).current_dir.item == item,
            final(self).current_dir.items == items,
            final(self).current_dir.selected == Some(0usize),
            final(self).current_dir.offset == 0,
            final(self).next_dir is None,
            final(self).previous_dir == old(self).previous_dir,
    {
        let has_entries = items.len() > 0;
        self.current_dir = CurrentDir::new(path, item, items);
        self.next_dir = None;
        has_entries
    }

    /// Where going back leads: the left pane's path and the path of its parent, or nothing
    /// when the left pane is empty.
    pub fn previous_target(&self) -> (r: Option<(String, Option<String>)>)
        ensures
            self.previous_dir is None ==> r is None,
            self.previous_dir matches Some(prev) ==> (r matches Some((p, up)) && p@ == prev.path@
                && (up is None <==> parent_of(prev.path@) is None) && (up matches Some(u)
                ==> parent_of(prev.path@) == Some(u@))),
    {
        match &self.previous_dir {
            None => None,
            Some(prev) => Some((prev.path.clone(), parent(prev.path.as_str()))),
        }
    }

    /// Going back: the directory at `path` becomes the current one with its first entry
    /// selected; the preview is left as it is.
    pub fn return_to(&mut self, path: String, item: File, items: Vec<File>)
        ensures
            final(self).current_dir.path == path,
            final(self).current_dir.item == item,
            final(self).current_dir.items == items,
            final(self).current_dir.selected == Some(0usize),
            final(self).next_dir == old(self).next_dir,
            final(self).previous_dir == old(self).previous_dir,
    {
        self.current_dir = CurrentDir::new(path, item, items);
    }

    /// Going back, second step: the left pane shows the parent's listing read by the
    /// caller, or nothing when the directory gone back to has no parent.
    pub fn set_previous_dir(&mut self, parent_listing: Option<(String, File, Vec<File>)>)
        ensures
            parent_listing is None ==> final(self).previous_dir is None,
            parent_listing matches Some((p, item, items)) ==> final(self).previous_dir matches Some(
                prev,
            ) && prev.path == p && prev.item == item && prev.items == items,
            final(self).current_dir == old(self).current_dir,
            final(self).next_dir == old(self).next_dir,
    {
        self.previous_dir = match parent_listing {
            Some((path, item, items)) => Some(PreviousDir::new(path, item, items)),
            None => None,
        };
    }

    /// Takes a preview computed in the background, if it still belongs to the selected
    /// entry: its directory has the selected entry's name. Anything else is dropped.
    pub fn accept_next_dir(&mut self, next: Option<NextDir>)
        ensures
            old(self).current_dir == final(self).current_dir,
            old(self).previous_dir == final(self).previous_dir,
            (next matches Some(n) && selected_entry(old(self).current_dir) matches Some(sel)
                && n.item.name@ == sel.name@) ==> final(self).next_dir == next,
            !(next matches Some(n) && selected_entry(old(self).current_dir) matches Some(sel)
                && n.item.name@ == sel.name@) ==> final(self).next_dir == old(self).next_dir,
    {
        match next {
            Some(n) => {
                match self.current_dir.selected_file() {
                    Ok(sel) => {
                        if same_string(&n.item.name, &sel.name) {
                            self.next_dir = Some(n);
                        }
                    },
                    Err(_) => {},
                }
            },
            None => {},
        }
    }

    /// Takes a fresh listing of a directory read in the background: when it is still the
    /// current directory (the same components, see `same_path`) its content is replaced,
    /// keeping the selection.
    pub fn refresh_current(&mut self, path: &String, item: File, items: Vec<File>)
        ensures
            components_of(path@) == components_of(old(self).current_dir.path@) ==> (
                final(self).current_dir.path == old(self).current_dir.path
                && final(self).current_dir.item == item
                && final(self).current_dir.items == items
                && final(self).current_dir.selected == old(self).current_dir.selected
                && final(self).current_dir.offset == old(self).current_dir.offset),
            components_of(path@) != components_of(old(self).current_dir.path@)
                ==> final(self).current_dir == old(self).current_dir,
            final(self).previous_dir == old(self).previous_dir,
            final(self).next_dir == old(self).next_dir,
    {
        if same_path(path.as_str(), self.current_dir.path.as_str()) {
            self.current_dir = self.current_dir.update(item, items);
        }
    }
}

/// The directory previewed or opened for a selected directory lies in the current one:
/// going up from it leads back to the current directory, and its final name is the
/// entry's name.
pub proof fn lemma_preview_inside_current(cur: CurrentDir)
    requires
        selected_entry(cur) is Some,
        selected_entry(cur)->Some_0.file_type is Dir,
        is_plain_name(selected_entry(cur)->Some_0.name@),
        is_join_base(cur.path@),
        trim_end(cur.path@) == cur.path@,
    ensures
        preview_target(cur) matches Some(Some(t)) && parent_of(t) == Some(cur.path@)
            && file_name_of(t) == Some(selected_entry(cur)->Some_0.name@),
{
    let name = selected_entry(cur)->Some_0.name@;
    lemma_parent_of_joined(cur.path@, name);
    lemma_file_name_of_joined(cur.path@, name);
}

}
