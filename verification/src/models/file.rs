//! Files and directories as the three panes list them.
use vstd::prelude::*;
use crate::utils::text::{debug_quoted, push_str, quoted};

verus! {

/// Where a file lives: only on this machine, only in the cloud, or in both.
#[derive(Debug, Clone, Copy, Hash, PartialEq, Eq, Structural)]
pub enum State {
    Local,
    Cloud,
    Synced,
    Syncing,
}

/// The marker a pane prints before a file of the given state.
pub open spec fn state_symbol(s: State) -> Seq<char> {
    match s {
        State::Local => seq!['(', 'L', ')'],
        State::Cloud => seq!['(', 'C', ')'],
        State::Synced => seq!['(', 'S', ')'],
        State::Syncing => seq!['(', 'S', 'I', ')'],
    }
}

impl State {
    /// The marker shown before the file name: `(L)`, `(C)`, `(S)` or `(SI)`.
    pub fn symbol(&self) -> (r: String)
        ensures
            r@ == state_symbol(*self),
    {
        let r = match self {
            State::Local => String::from_str("(L)"),
            State::Cloud => String::from_str("(C)"),
            State::Synced => String::from_str("(S)"),
            State::Syncing => String::from_str("(SI)"),
        };
        proof {
            reveal_strlit("(L)");
            reveal_strlit("(C)");
            reveal_strlit("(S)");
            reveal_strlit("(SI)");
        }
        r
    }

    /// Whether the cloud holds a copy: every state but `Local`.
    pub fn in_cloud(&self) -> (r: bool)
        ensures
            r == !(*self is Local),
    {
        !matches!(self, State::Local)
    }
}

/// A file's location on the disk service.
#[derive(Debug, Hash, PartialEq, Eq)]
pub struct CloudFile {
    pub path: String,
}

impl Clone for CloudFile {
    fn clone(&self) -> (r: Self)
        ensures
            r == *self,
    {
        CloudFile { path: self.path.clone() }
    }
}

/// A file's location under the local sync directory.
#[derive(Debug, Hash, PartialEq, Eq)]
pub struct LocalFile {
    pub path: String,
}

impl Clone for LocalFile {
    fn clone(&self) -> (r: Self)
        ensures
            r == *self,
    {
        LocalFile { path: self.path.clone() }
    }
}

/// Whether an entry is a plain file or a directory; directories order after files.
#[derive(Clone, Copy, Debug, Ord, Eq, PartialOrd, PartialEq, Hash, Structural)]
pub enum NodeType {
    File,
    Dir,
}

/// One entry of a directory listing, local, remote or both.
#[derive(Debug, Hash, PartialEq, Eq)]
pub struct File {
    pub name: String,
    pub file_type: NodeType,
    pub state: State,
    pub cloud: Option<CloudFile>,
    pub local: Option<LocalFile>,
}

/// A listing entry as values: its name, kind, state, and its cloud and local paths.
pub struct FileView {
    pub name: Seq<char>,
    pub file_type: NodeType,
    pub state: State,
    pub cloud: Option<Seq<char>>,
    pub local: Option<Seq<char>>,
}

impl View for File {
    type V = FileView;

    open spec fn view(&self) -> FileView {
        FileView {
            name: self.name@,
            file_type: self.file_type,
            state: self.state,
            cloud: match self.cloud {
                Some(c) => Some(c.path@),
                None => None,
            },
            local: match self.local {
                Some(l) => Some(l.path@),
                None => None,
            },
        }
    }
}

impl DeepView for File {
    type V = FileView;

    open spec fn deep_view(&self) -> FileView {
        self@
    }
}

impl Clone for File {
    fn clone(&self) -> (r: Self)
        ensures
            r == *self,
    {
        File {
            name: self.name.clone(),
            file_type: self.file_type,
            state: self.state,
            cloud: match &self.cloud {
                Some(c) => Some(c.clone()),
                None => None,
            },
            local: match &self.local {
                Some(l) => Some(l.clone()),
                None => None,
            },
        }
    }
}

/// The text of a listing line: ` * ` for a directory or ` ! ` for a file, the state marker,
/// a space and the name.
pub open spec fn list_label(f: File) -> Seq<char> {
    (if f.file_type is Dir { seq![' ', '*', ' '] } else { seq![' ', '!', ' '] }) + state_symbol(
        f.state,
    ) + seq![' '] + f.name@
}

impl File {
    /// Whether the entry is a directory.
    pub fn is_dir(&self) -> (r: bool)
        ensures
            r == (self.file_type is Dir),
    {
        matches!(self.file_type, NodeType::Dir)
    }

    /// Whether the entry is a plain file.
    pub fn is_file(&self) -> (r: bool)
        ensures
            r == (self.file_type is File),
    {
        matches!(self.file_type, NodeType::File)
    }

    /// The line that lists this entry in a pane.
    pub fn label(&self) -> (r: String)
        ensures
            r@ == list_label(*self),
    {
        let mut out = match self.file_type {
            NodeType::Dir => String::from_str(" * "),
            NodeType::File => String::from_str(" ! "),
        };
        proof {
            reveal_strlit(" * ");
            reveal_strlit(" ! ");
            reveal_strlit(" ");
        }
        let sym = self.state.symbol();
        push_str(&mut out, sym.as_str());
        push_str(&mut out, " ");
        push_str(&mut out, self.name.as_str());
        proof {
            assert(out@ =~= list_label(*self));
        }
        out
    }
}

/// The debug text of a kind: `File` or `Dir`.
pub open spec fn node_type_debug(t: NodeType) -> Seq<char> {
    match t {
        NodeType::File => "File"@,
        NodeType::Dir => "Dir"@,
    }
}

/// The debug text of a state: the variant's name.
pub open spec fn state_debug(s: State) -> Seq<char> {
    match s {
        State::Local => "Local"@,
        State::Cloud => "Cloud"@,
        State::Synced => "Synced"@,
        State::Syncing => "Syncing"@,
    }
}

/// The debug text of an optional location held in a struct called `holder`:
/// `Some(<holder> { path: "<path>" })` or `None`.
pub open spec fn location_debug(holder: Seq<char>, path: Option<Seq<char>>) -> Seq<char> {
    match path {
        Some(p) => "Some("@ + holder + " { path: "@ + debug_quoted(p) + " })"@,
        None => "None"@,
    }
}

/// The text `format!("{:?}", f)` writes for an entry:
/// `File { name: "<name>", file_type: <kind>, state: <state>, cloud: <..>, local: <..> }`.
pub open spec fn file_debug(f: FileView) -> Seq<char> {
    "File { name: "@ + debug_quoted(f.name) + ", file_type: "@ + node_type_debug(f.file_type)
        + ", state: "@ + state_debug(f.state) + ", cloud: "@ + location_debug(
        "CloudFile"@,
        f.cloud,
    ) + ", local: "@ + location_debug("LocalFile"@, f.local) + " }"@
}

fn push_location(out: &mut String, holder: &str, path: Option<&String>)
    ensures
        final(out)@ == old(out)@ + location_debug(
            holder@,
            match path {
                Some(p) => Some(p@),
                None => None,
            },
        ),
{
    match path {
        Some(p) => {
            push_str(out, "Some(");
            push_str(out, holder);
            push_str(out, " { path: ");
            let q = quoted(p.as_str());
            push_str(out, q.as_str());
            push_str(out, " })");
        },
        None => push_str(out, "None"),
    }
    assert(final(out)@ =~= old(out)@ + location_debug(
        holder@,
        match path {
            Some(p) => Some(p@),
            None => None,
        },
    ));
}

impl File {
    /// The debug text of the entry (see `file_debug`).
    pub fn debug_text(&self) -> (r: String)
        ensures
            r@ == file_debug(self@),
    {
        let mut out = String::from_str("File { name: ");
        let name = quoted(self.name.as_str());
        push_str(&mut out, name.as_str());
        push_str(&mut out, ", file_type: ");
        match self.file_type {
            NodeType::File => push_str(&mut out, "File"),
            NodeType::Dir => push_str(&mut out, "Dir"),
        }
        push_str(&mut out, ", state: ");
        match self.state {
            State::Local => push_str(&mut out, "Local"),
            State::Cloud => push_str(&mut out, "Cloud"),
            State::Synced => push_str(&mut out, "Synced"),
            State::Syncing => push_str(&mut out, "Syncing"),
        }
        push_str(&mut out, ", cloud: ");
        let cloud = match &self.cloud {
            Some(c) => Some(&c.path),
            None => None,
        };
        push_location(&mut out, "CloudFile", cloud);
        push_str(&mut out, ", local: ");
        let local = match &self.local {
            Some(l) => Some(&l.path),
            None => None,
        };
        push_location(&mut out, "LocalFile", local);
        push_str(&mut out, " }");
        proof {
            assert(out@ =~= file_debug(self@));
        }
        out
    }
}

}
