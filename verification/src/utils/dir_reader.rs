//! Merging what the disk service lists with what the local sync directory holds.
use vstd::prelude::*;
use vstd::seq_lib::{lemma_multiset_commutative, to_multiset_build, to_multiset_contains};
use crate::disk_client::{DirItem, ItemResponse, is_dir_type};
use crate::error::AppError;
use crate::models::file::{CloudFile, File, FileView, LocalFile, NodeType, State};
use crate::utils::common::{f_name_of, read_f_name};
use crate::utils::text::{push_str, same_text};

verus! {

/// One readable entry of a local directory: its name, whether it is a plain file (anything
/// else counts as a directory), and its full path.
pub struct LocalEntry {
    pub name: String,
    pub is_file: bool,
    pub path: String,
}

/// Some item of `items` is called `name`.
pub open spec fn has_item_named(items: Seq<DirItem>, name: Seq<char>) -> bool {
    exists|j: int| 0 <= j < items.len() && #[trigger] items[j].name@ == name
}

/// The items that no later item shares a name with, in their order: looking items up by
/// name, the last one listed under a name is the one that counts.
pub open spec fn distinct_items(items: Seq<DirItem>) -> Seq<DirItem>
    decreases items.len(),
{
    if items.len() == 0 {
        Seq::empty()
    } else {
        let rest = items.subrange(1, items.len() as int);
        if has_item_named(rest, items[0].name@) {
            distinct_items(rest)
        } else {
            seq![items[0]] + distinct_items(rest)
        }
    }
}

/// The last item of `items` called `name`, if any.
pub open spec fn last_named(items: Seq<DirItem>, name: Seq<char>) -> Option<DirItem>
    decreases items.len(),
{
    if items.len() == 0 {
        None
    } else if items.last().name@ == name {
        Some(items.last())
    } else {
        last_named(items.drop_last(), name)
    }
}

/// A cloud item is a directory when its type says `dir`, and a plain file otherwise.
pub open spec fn kind_of_item(item: DirItem) -> NodeType {
    if is_dir_type(item.item_type@) {
        NodeType::Dir
    } else {
        NodeType::File
    }
}

/// A local entry as listed: synced, with the cloud item's path, when the cloud lists an
/// item of that name, and local only otherwise.
pub open spec fn local_view(e: LocalEntry, items: Seq<DirItem>) -> FileView {
    let c = last_named(items, e.name@);
    FileView {
        name: e.name@,
        file_type: if e.is_file {
            NodeType::File
        } else {
            NodeType::Dir
        },
        state: if c is Some {
            State::Synced
        } else {
            State::Local
        },
        cloud: match c {
            Some(ci) => Some(ci.path@),
            None => None,
        },
        local: Some(e.path@),
    }
}

/// The local entries as listed, in the order the directory gave them.
pub open spec fn local_views(entries: Seq<LocalEntry>, items: Seq<DirItem>) -> Seq<FileView> {
    entries.map_values(|e: LocalEntry| local_view(e, items))
}

/// Some local entry is called `name`.
pub open spec fn has_entry_named(entries: Seq<LocalEntry>, name: Seq<char>) -> bool {
    exists|j: int| 0 <= j < entries.len() && #[trigger] entries[j].name@ == name
}

/// A cloud item listed as present in the cloud only, with the given cloud path.
pub open spec fn remote_view(item: DirItem, cloud_path: Seq<char>) -> FileView {
    FileView {
        name: item.name@,
        file_type: kind_of_item(item),
        state: State::Cloud,
        cloud: Some(cloud_path),
        local: None,
    }
}

/// The distinct cloud items that no local entry shares a name with, each at its own path.
pub open spec fn cloud_only_views(distinct: Seq<DirItem>, entries: Seq<LocalEntry>) -> Seq<
    FileView,
>
    decreases distinct.len(),
{
    if distinct.len() == 0 {
        Seq::empty()
    } else {
        let rest = cloud_only_views(distinct.subrange(1, distinct.len() as int), entries);
        if has_entry_named(entries, distinct[0].name@) {
            rest
        } else {
            seq![remote_view(distinct[0], distinct[0].path@)] + rest
        }
    }
}

/// The distinct cloud items of a directory that exists in the cloud only; each records
/// the directory's path as its cloud path.
pub open spec fn remote_views(distinct: Seq<DirItem>, dir_path: Seq<char>) -> Seq<FileView> {
    distinct.map_values(|i: DirItem| remote_view(i, dir_path))
}

/// The entries of `s` of kind `t`, in order.
pub open spec fn of_type(s: Seq<FileView>, t: NodeType) -> Seq<FileView>
    decreases s.len(),
{
    if s.len() == 0 {
        Seq::empty()
    } else {
        let rest = of_type(s.drop_last(), t);
        if s.last().file_type == t {
            rest.push(s.last())
        } else {
            rest
        }
    }
}

/// `s` reordered as a stable sort puts it, directories before files.
pub open spec fn dirs_first(s: Seq<FileView>) -> Seq<FileView> {
    of_type(s, NodeType::Dir) + of_type(s, NodeType::File)
}

/// The content of a directory that exists locally: the local entries, then the cloud-only
/// items, directories first.
pub open spec fn merged_listing(entries: Seq<LocalEntry>, items: Seq<DirItem>) -> Seq<FileView> {
    dirs_first(local_views(entries, items) + cloud_only_views(distinct_items(items), entries))
}

/// Index of the last item called `name`.
fn find_last_named(items: &Vec<DirItem>, name: &str) -> (r: Option<usize>)
    ensures
        r is None ==> last_named(items@, name@) is None,
        r matches Some(k) ==> k < items.len() && last_named(items@, name@) == Some(items@[k as int]),
{
    let mut k: usize = items.len();
    assert(items@.take(k as int) =~= items@);
    while k > 0
        invariant
            k <= items.len(),
            last_named(items@, name@) == last_named(items@.take(k as int), name@),
        decreases k,
    {
        let ghost t = items@.take(k as int);
        if same_text(items[k - 1].name.as_str(), name) {
            return Some(k - 1);
        }
        assert(t.drop_last() =~= items@.take(k - 1));
        k = k - 1;
    }
    None
}

/// Whether an item after position `k` has the name of item `k`.
fn named_again_later(items: &Vec<DirItem>, k: usize) -> (r: bool)
    requires
        k < items.len(),
    ensures
        r == has_item_named(items@.subrange(k + 1, items.len() as int), items@[k as int].name@),
{
    let ghost rest = items@.subrange(k + 1, items.len() as int);
    let mut j: usize = k + 1;
    while j < items.len()
        invariant
            k < j <= items.len(),
            rest == items@.subrange(k + 1, items.len() as int),
            forall|m: int| 0 <= m < j - (k + 1) ==> rest[m].name@ != items@[k as int].name@,
        decreases items.len() - j,
    {
        if same_text(items[j].name.as_str(), items[k].name.as_str()) {
            assert(rest[j - (k + 1)].name@ == items@[k as int].name@);
            return true;
        }
        j = j + 1;
    }
    false
}

/// The items that count when looking up by name (see `distinct_items`).
pub fn distinct(items: &Vec<DirItem>) -> (r: Vec<DirItem>)
    ensures
        r@ == distinct_items(items@),
{
    let n = items.len();
    let mut out: Vec<DirItem> = Vec::new();
    let mut k: usize = 0;
    assert(items@.subrange(0, n as int) =~= items@);
    while k < n
        invariant
            n == items.len(),
            k <= n,
            distinct_items(items@) == out@ + distinct_items(items@.subrange(k as int, n as int)),
        decreases n - k,
    {
        let ghost s = items@.subrange(k as int, n as int);
        assert(s.subrange(1, s.len() as int) =~= items@.subrange(k + 1, n as int));
        assert(s[0] == items@[k as int]);
        let again = named_again_later(items, k);
        if !again {
            let ghost before = out@;
            out.push(items[k].clone());
            assert(before + (seq![items@[k as int]] + distinct_items(items@.subrange(k + 1, n as int)))
                =~= out@ + distinct_items(items@.subrange(k + 1, n as int)));
        }
        k = k + 1;
    }
    assert(items@.subrange(n as int, n as int) =~= Seq::<DirItem>::empty());
    assert(out@ + Seq::<DirItem>::empty() =~= out@);
    out
}

/// Whether a local entry is called `name`.
fn entry_named(entries: &Vec<LocalEntry>, name: &str) -> (r: bool)
    ensures
        r == has_entry_named(entries@, name@),
{
    let mut j: usize = 0;
    while j < entries.len()
        invariant
            j <= entries.len(),
            forall|m: int| 0 <= m < j ==> entries@[m].name@ != name@,
        decreases entries.len() - j,
    {
        if same_text(entries[j].name.as_str(), name) {
            assert(entries@[j as int].name@ == name@);
            return true;
        }
        j = j + 1;
    }
    false
}

fn kind_of(item: &DirItem) -> (t: NodeType)
    ensures
        t == kind_of_item(*item),
{
    if item.is_dir() {
        NodeType::Dir
    } else {
        NodeType::File
    }
}

/// A local entry as listed (see `local_view`).
fn local_file(e: &LocalEntry, items: &Vec<DirItem>) -> (f: File)
    ensures
        f@ == local_view(*e, items@),
{
    let found = find_last_named(items, e.name.as_str());
    let (state, cloud) = match found {
        Some(k) => (State::Synced, Some(CloudFile { path: items[k].path.clone() })),
        None => (State::Local, None),
    };
    File {
        name: e.name.clone(),
        file_type: if e.is_file {
            NodeType::File
        } else {
            NodeType::Dir
        },
        state,
        cloud,
        local: Some(LocalFile { path: e.path.clone() }),
    }
}

/// A cloud item listed as present in the cloud only (see `remote_view`).
fn remote_file(item: &DirItem, cloud_path: &String) -> (f: File)
    ensures
        f@ == remote_view(*item, cloud_path@),
{
    File {
        name: item.name.clone(),
        file_type: kind_of(item),
        state: State::Cloud,
        cloud: Some(CloudFile { path: cloud_path.clone() }),
        local: None,
    }
}

/// The entries of `files` of kind `t`, in order.
fn keep_type(files: &Vec<File>, t: NodeType, out: &mut Vec<File>)
    ensures
        final(out).deep_view() == old(out).deep_view() + of_type(files.deep_view(), t),
{
    let ghost fs = files.deep_view();
    let ghost start = old(out).deep_view();
    let mut i: usize = 0;
    assert(fs.take(0) =~= Seq::<FileView>::empty());
    assert(start + Seq::<FileView>::empty() =~= start);
    while i < files.len()
        invariant
            i <= files.len(),
            fs == files.deep_view(),
            out.deep_view() == start + of_type(fs.take(i as int), t),
        decreases files.len() - i,
    {
        assert(fs.take(i + 1).drop_last() =~= fs.take(i as int));
        assert(fs.take(i + 1).last() == files@[i as int]@);
        if files[i].file_type == t {
            let ghost before = out.deep_view();
            out.push(files[i].clone());
            assert(out.deep_view() =~= before.push(files@[i as int]@));
        }
        i = i + 1;
    }
    assert(fs.take(files.len() as int) =~= fs);
}

/// `files` with directories before plain files, each group in its former order.
pub fn sort_dirs_first(files: &Vec<File>) -> (r: Vec<File>)
    ensures
        r.deep_view() == dirs_first(files.deep_view()),
{
    let mut out: Vec<File> = Vec::new();
    assert(out.deep_view() =~= Seq::<FileView>::empty());
    keep_type(files, NodeType::Dir, &mut out);
    keep_type(files, NodeType::File, &mut out);
    assert(Seq::<FileView>::empty() + of_type(files.deep_view(), NodeType::Dir) =~= of_type(
        files.deep_view(),
        NodeType::Dir,
    ));
    out
}

/// The content of a directory that exists locally (see `merged_listing`).
pub fn merge_entries(entries: &Vec<LocalEntry>, items: &Vec<DirItem>) -> (r: Vec<File>)
    ensures
        r.deep_view() == merged_listing(entries@, items@),
{
    let mut all: Vec<File> = Vec::new();
    let mut i: usize = 0;
    while i < entries.len()
        invariant
            i <= entries.len(),
            all.deep_view() =~= local_views(entries@.take(i as int), items@),
        decreases entries.len() - i,
    {
        let f = local_file(&entries[i], items);
        let ghost before = all.deep_view();
        all.push(f);
        assert(all.deep_view() =~= before.push(f@));
        assert(entries@.take(i + 1) =~= entries@.take(i as int).push(entries@[i as int]));
        assert(local_views(entries@.take(i + 1), items@) =~= local_views(
            entries@.take(i as int),
            items@,
        ).push(local_view(entries@[i as int], items@)));
        i = i + 1;
    }
    assert(entries@.take(entries.len() as int) =~= entries@);
    let ghost locals = all.deep_view();
    let d = distinct(items);
    let n = d.len();
    let mut k: usize = 0;
    assert(d@.subrange(0, n as int) =~= d@);
    assert(locals + Seq::<FileView>::empty() =~= locals);
    let ghost mut added: Seq<FileView> = Seq::empty();
    while k < n
        invariant
            n == d.len(),
            k <= n,
            all.deep_view() == locals + added,
            cloud_only_views(d@, entries@) == added + cloud_only_views(
                d@.subrange(k as int, n as int),
                entries@,
            ),
        decreases n - k,
    {
        let ghost s = d@.subrange(k as int, n as int);
        assert(s.subrange(1, s.len() as int) =~= d@.subrange(k + 1, n as int));
        assert(s[0] == d@[k as int]);
        if !entry_named(entries, d[k].name.as_str()) {
            let f = remote_file(&d[k], &d[k].path);
            let ghost before = all.deep_view();
            all.push(f);
            proof {
                assert(all.deep_view() =~= before.push(f@));
                assert(added + (seq![f@] + cloud_only_views(d@.subrange(k + 1, n as int), entries@))
                    =~= added.push(f@) + cloud_only_views(d@.subrange(k + 1, n as int), entries@));
                assert(locals + added.push(f@) =~= (locals + added).push(f@));
                added = added.push(f@);
            }
        }
        k = k + 1;
    }
    assert(d@.subrange(n as int, n as int) =~= Seq::<DirItem>::empty());
    assert(added + Seq::<FileView>::empty() =~= added);
    sort_dirs_first(&all)
}

/// The cloud items of a directory, or none when the service did not answer.
pub open spec fn cloud_items(cloud: Option<ItemResponse>) -> Seq<DirItem> {
    match cloud {
        Some(c) => c._embedded.items@,
        None => Seq::empty(),
    }
}

/// Where the sync directory keeps the directory `path`: `<sync_dir>/<path>`.
pub open spec fn local_dir_path(sync_dir: Seq<char>, path: Seq<char>) -> Seq<char> {
    sync_dir + "/"@ + path
}

/// The directory itself as listed.
pub open spec fn root_view(
    name: Seq<char>,
    state: State,
    cloud: Option<ItemResponse>,
    local_present: bool,
    sync_dir: Seq<char>,
    path: Seq<char>,
) -> FileView {
    FileView {
        name,
        file_type: NodeType::Dir,
        state,
        cloud: match cloud {
            Some(c) => Some(c.path@),
            None => None,
        },
        local: if local_present {
            Some(local_dir_path(sync_dir, path))
        } else {
            None
        },
    }
}

/// The state of a directory that the cloud has (`in_cloud`) and the disk has (`on_disk`).
pub open spec fn dir_state(in_cloud: bool, on_disk: bool) -> State {
    if in_cloud && on_disk {
        State::Synced
    } else if in_cloud {
        State::Cloud
    } else {
        State::Local
    }
}

/// The content of the directory at `path`: merged when it exists locally (with the cloud
/// items only if the cloud has it), the cloud items alone otherwise.
pub open spec fn listing_view(
    path: Seq<char>,
    in_cloud: bool,
    cloud: Option<ItemResponse>,
    local: Option<Seq<LocalEntry>>,
) -> Seq<FileView> {
    match local {
        Some(entries) => if in_cloud {
            merged_listing(entries, cloud_items(cloud))
        } else {
            merged_listing(entries, Seq::empty())
        },
        None => remote_views(distinct_items(cloud_items(cloud)), path),
    }
}

/// The local entries, when the directory could be read.
pub open spec fn local_entries(local: Result<Vec<LocalEntry>, AppError>) -> Option<Seq<LocalEntry>> {
    match local {
        Ok(v) => Some(v@),
        Err(_) => None,
    }
}

/// The listing of the directory at `path`, from what was fetched and read. `probe` tells
/// whether the cloud has the directory, `cloud` is the service's answer when it sent one,
/// and `local` is the readable entries of `<sync_dir_path>/<path>`, or why it could not be
/// read. When neither the cloud nor the disk has the directory, both errors are returned.
pub fn read_dir_listing(
    path: &String,
    sync_dir_path: &str,
    probe: Result<(), AppError>,
    cloud: Option<ItemResponse>,
    local: Result<Vec<LocalEntry>, AppError>,
) -> (r: Result<(File, Vec<File>), AppError>)
    ensures
        probe is Err && local is Err ==> (r matches Err(AppError::MultipleErrors(v)) && v@ == seq![
            probe->Err_0,
            local->Err_0,
        ]),
        !(probe is Err && local is Err) && f_name_of(path@) is None ==> (r matches Err(
            AppError::InvalidFileName(m),
        ) && m@ == "Can't read file name - "@ + path@),
        !(probe is Err && local is Err) && f_name_of(path@) is Some ==> (r matches Ok(
            (root, files),
        ) && root@ == root_view(
            f_name_of(path@)->Some_0,
            dir_state(probe is Ok, local is Ok),
            cloud,
            local is Ok,
            sync_dir_path@,
            path@,
        ) && files.deep_view() == listing_view(path@, probe is Ok, cloud, local_entries(local))),
{
    let in_cloud = probe.is_ok();
    let on_disk = local.is_ok();
    if !in_cloud && !on_disk {
        let mut errors: Vec<AppError> = Vec::new();
        match (probe, local) {
            (Err(c), Err(l)) => {
                errors.push(c);
                errors.push(l);
            },
            _ => {},
        }
        return Err(AppError::MultipleErrors(errors));
    }
    let name = match read_f_name(path.clone()) {
        Ok(n) => n,
        Err(e) => return Err(e),
    };
    let state = if in_cloud && on_disk {
        State::Synced
    } else if in_cloud {
        State::Cloud
    } else {
        State::Local
    };
    let root_cloud = match &cloud {
        Some(c) => Some(CloudFile { path: c.path.clone() }),
        None => None,
    };
    let root_local = if on_disk {
        let mut p = String::from_str(sync_dir_path);
        push_str(&mut p, "/");
        push_str(&mut p, path.as_str());
        Some(LocalFile { path: p })
    } else {
        None
    };
    let root = File { name, file_type: NodeType::Dir, state, cloud: root_cloud, local: root_local };
    let empty: Vec<DirItem> = Vec::new();
    let items: &Vec<DirItem> = match &cloud {
        Some(c) => &c._embedded.items,
        None => &empty,
    };
    assert(items@ == cloud_items(cloud));
    let files = match local {
        Ok(entries) => {
            if in_cloud {
                merge_entries(&entries, items)
            } else {
                let none: Vec<DirItem> = Vec::new();
                merge_entries(&entries, &none)
            }
        },
        Err(_) => {
            let d = distinct(items);
            let mut out: Vec<File> = Vec::new();
            let mut k: usize = 0;
            while k < d.len()
                invariant
                    k <= d.len(),
                    out.deep_view() =~= remote_views(d@.take(k as int), path@),
                decreases d.len() - k,
            {
                let f = remote_file(&d[k], path);
                let ghost before = out.deep_view();
                out.push(f);
                assert(out.deep_view() =~= before.push(f@));
                assert(d@.take(k + 1) =~= d@.take(k as int).push(d@[k as int]));
                assert(remote_views(d@.take(k + 1), path@) =~= remote_views(
                    d@.take(k as int),
                    path@,
                ).push(remote_view(d@[k as int], path@)));
                k = k + 1;
            }
            assert(d@.take(d.len() as int) =~= d@);
            out
        },
    };
    Ok((root, files))
}

/// Putting directories first keeps every entry, as many times as it was there.
pub proof fn lemma_dirs_first_keeps_entries(s: Seq<FileView>)
    ensures
        dirs_first(s).to_multiset() =~= s.to_multiset(),
        dirs_first(s).len() == s.len(),
    decreases s.len(),
{
    broadcast use vstd::multiset::group_multiset_axioms;

    if s.len() == 0 {
        assert(dirs_first(s) =~= Seq::<FileView>::empty());
        assert(s =~= Seq::<FileView>::empty());
    } else {
        let t = s.drop_last();
        let x = s.last();
        lemma_dirs_first_keeps_entries(t);
        assert(s =~= t.push(x));
        to_multiset_build(t, x);
        let a = of_type(t, NodeType::Dir);
        let b = of_type(t, NodeType::File);
        lemma_multiset_commutative(a, b);
        if x.file_type is Dir {
            assert(of_type(s, NodeType::Dir) == a.push(x));
            assert(of_type(s, NodeType::File) == b);
            to_multiset_build(a, x);
            lemma_multiset_commutative(a.push(x), b);
        } else {
            assert(of_type(s, NodeType::Dir) == a);
            assert(of_type(s, NodeType::File) == b.push(x));
            to_multiset_build(b, x);
            lemma_multiset_commutative(a, b.push(x));
        }
        vstd::seq_lib::to_multiset_len(dirs_first(s));
        vstd::seq_lib::to_multiset_len(s);
    }
}

/// The merge loses no local entry: each is listed, as its cloud counterpart says.
pub proof fn lemma_local_entries_listed(entries: Seq<LocalEntry>, items: Seq<DirItem>, k: int)
    requires
        0 <= k < entries.len(),
    ensures
        merged_listing(entries, items).contains(local_view(entries[k], items)),
{
    let locals = local_views(entries, items);
    let all = locals + cloud_only_views(distinct_items(items), entries);
    let v = local_view(entries[k], items);
    assert(all[k] == v);
    assert(all.contains(v));
    lemma_dirs_first_keeps_entries(all);
    to_multiset_contains(all, v);
    to_multiset_contains(dirs_first(all), v);
}

/// A local entry is listed as synced exactly when the cloud lists an item of its name, and
/// the cloud path it records is that of the last such item.
pub proof fn lemma_synced_iff_in_cloud(items: Seq<DirItem>, name: Seq<char>)
    ensures
        last_named(items, name) is Some <==> has_item_named(items, name),
        last_named(items, name) matches Some(i) ==> i.name@ == name,
    decreases items.len(),
{
    if items.len() > 0 {
        let d = items.drop_last();
        lemma_synced_iff_in_cloud(d, name);
        if items.last().name@ != name {
            if has_item_named(items, name) {
                let j = choose|j: int| 0 <= j < items.len() && #[trigger] items[j].name@ == name;
                assert(j < items.len() - 1);
                assert(d[j] == items[j]);
            }
            if has_item_named(d, name) {
                let j = choose|j: int| 0 <= j < d.len() && #[trigger] d[j].name@ == name;
                assert(items[j] == d[j]);
            }
        } else {
            assert(items[items.len() - 1].name@ == name);
        }
    }
}

proof fn lemma_last_named_cons(x: DirItem, rest: Seq<DirItem>, name: Seq<char>)
    ensures
        last_named(seq![x] + rest, name) == (if has_item_named(rest, name) {
            last_named(rest, name)
        } else if x.name@ == name {
            Some(x)
        } else {
            None
        }),
    decreases rest.len(),
{
    let all = seq![x] + rest;
    if rest.len() == 0 {
        assert(all =~= seq![x]);
        assert(all.last() == x);
        assert(all.drop_last() =~= Seq::<DirItem>::empty());
        assert(!has_item_named(rest, name));
    } else {
        let r2 = rest.drop_last();
        lemma_last_named_cons(x, r2, name);
        assert(all.drop_last() =~= seq![x] + r2);
        assert(all.last() == rest.last());
        if rest.last().name@ == name {
            assert(rest[rest.len() - 1].name@ == name);
            assert(has_item_named(rest, name));
            assert(last_named(rest, name) == Some(rest.last()));
            assert(last_named(all, name) == Some(all.last()));
        } else {
            assert(last_named(all, name) == last_named(all.drop_last(), name));
            assert(last_named(rest, name) == last_named(r2, name));
            if has_item_named(rest, name) {
                let j = choose|j: int| 0 <= j < rest.len() && #[trigger] rest[j].name@ == name;
                assert(r2[j] == rest[j]);
            }
            if has_item_named(r2, name) {
                let j = choose|j: int| 0 <= j < r2.len() && #[trigger] r2[j].name@ == name;
                assert(rest[j] == r2[j]);
            }
        }
    }
}

proof fn lemma_distinct_holds_last(items: Seq<DirItem>, name: Seq<char>)
    requires
        has_item_named(items, name),
    ensures
        last_named(items, name) is Some,
        distinct_items(items).contains(last_named(items, name)->Some_0),
    decreases items.len(),
{
    let x = items[0];
    let rest = items.subrange(1, items.len() as int);
    assert(items =~= seq![x] + rest);
    lemma_last_named_cons(x, rest, name);
    if has_item_named(rest, name) {
        lemma_distinct_holds_last(rest, name);
        let d = distinct_items(rest);
        let v = last_named(rest, name)->Some_0;
        let i = choose|i: int| 0 <= i < d.len() && d[i] == v;
        if has_item_named(rest, x.name@) {
            assert(distinct_items(items) == d);
        } else {
            assert(distinct_items(items) == seq![x] + d);
            assert((seq![x] + d)[i + 1] == v);
        }
    } else {
        let j = choose|j: int| 0 <= j < items.len() && #[trigger] items[j].name@ == name;
        if j > 0 {
            assert(rest[j - 1] == items[j]);
        }
        assert(x.name@ == name);
        assert(!has_item_named(rest, x.name@));
        assert(distinct_items(items) == seq![x] + distinct_items(rest));
        assert((seq![x] + distinct_items(rest))[0] == x);
    }
}

proof fn lemma_cloud_only_holds(distinct: Seq<DirItem>, entries: Seq<LocalEntry>, k: int)
    requires
        0 <= k < distinct.len(),
        !has_entry_named(entries, distinct[k].name@),
    ensures
        cloud_only_views(distinct, entries).contains(remote_view(distinct[k], distinct[k].path@)),
    decreases distinct.len(),
{
    let rest = distinct.subrange(1, distinct.len() as int);
    let v = remote_view(distinct[k], distinct[k].path@);
    if k == 0 {
        assert(cloud_only_views(distinct, entries)[0] == v);
    } else {
        assert(rest[k - 1] == distinct[k]);
        lemma_cloud_only_holds(rest, entries, k - 1);
        let tail = cloud_only_views(rest, entries);
        let i = choose|i: int| 0 <= i < tail.len() && tail[i] == v;
        if !has_entry_named(entries, distinct[0].name@) {
            let head = seq![remote_view(distinct[0], distinct[0].path@)];
            assert((head + tail)[i + 1] == v);
        }
    }
}

/// The merge loses no cloud item: for every name the cloud lists and no local entry has,
/// the last item of that name is listed as present in the cloud only, at its own path.
pub proof fn lemma_cloud_items_listed(entries: Seq<LocalEntry>, items: Seq<DirItem>, k: int)
    requires
        0 <= k < items.len(),
        !has_entry_named(entries, items[k].name@),
    ensures
        last_named(items, items[k].name@) matches Some(c) && merged_listing(entries, items).contains(
            remote_view(c, c.path@),
        ),
{
    let name = items[k].name@;
    assert(has_item_named(items, name));
    lemma_distinct_holds_last(items, name);
    lemma_synced_iff_in_cloud(items, name);
    let c = last_named(items, name)->Some_0;
    let d = distinct_items(items);
    let i = choose|i: int| 0 <= i < d.len() && d[i] == c;
    lemma_cloud_only_holds(d, entries, i);
    let locals = local_views(entries, items);
    let remotes = cloud_only_views(d, entries);
    let v = remote_view(c, c.path@);
    let j = choose|j: int| 0 <= j < remotes.len() && remotes[j] == v;
    let all = locals + remotes;
    assert(all[locals.len() + j] == v);
    assert(all.contains(v));
    lemma_dirs_first_keeps_entries(all);
    to_multiset_contains(all, v);
    to_multiset_contains(dirs_first(all), v);
}

/// Each item kept by `distinct_items` is the last item of its name.
proof fn lemma_distinct_is_last(items: Seq<DirItem>, x: DirItem)
    requires
        distinct_items(items).contains(x),
    ensures
        last_named(items, x.name@) == Some(x),
    decreases items.len(),
{
    let x0 = items[0];
    let rest = items.subrange(1, items.len() as int);
    assert(items =~= seq![x0] + rest);
    lemma_last_named_cons(x0, rest, x.name@);
    if has_item_named(rest, x0.name@) {
        lemma_distinct_is_last(rest, x);
        lemma_synced_iff_in_cloud(rest, x.name@);
    } else {
        let d = distinct_items(rest);
        let i = choose|i: int| 0 <= i < (seq![x0] + d).len() && (seq![x0] + d)[i] == x;
        if i == 0 {
            assert(x == x0);
        } else {
            assert(d[i - 1] == x);
            assert(d.contains(x));
            lemma_distinct_is_last(rest, x);
            lemma_synced_iff_in_cloud(rest, x.name@);
        }
    }
}

/// Each entry of `cloud_only_views` is the remote view of one of the items, at its own
/// path, and no local entry has that item's name.
proof fn lemma_cloud_only_member(distinct: Seq<DirItem>, entries: Seq<LocalEntry>, v: FileView) -> (k: int)
    requires
        cloud_only_views(distinct, entries).contains(v),
    ensures
        0 <= k < distinct.len(),
        v == remote_view(distinct[k], distinct[k].path@),
        !has_entry_named(entries, distinct[k].name@),
    decreases distinct.len(),
{
    let rest = distinct.subrange(1, distinct.len() as int);
    let tail = cloud_only_views(rest, entries);
    let all = cloud_only_views(distinct, entries);
    let i = choose|i: int| 0 <= i < all.len() && all[i] == v;
    if has_entry_named(entries, distinct[0].name@) {
        assert(tail.contains(v));
        let j = lemma_cloud_only_member(rest, entries, v);
        assert(rest[j] == distinct[j + 1]);
        j + 1
    } else {
        let head = seq![remote_view(distinct[0], distinct[0].path@)];
        assert(all == head + tail);
        if i == 0 {
            0
        } else {
            assert(tail[i - 1] == v);
            assert(tail.contains(v));
            let j = lemma_cloud_only_member(rest, entries, v);
            assert(rest[j] == distinct[j + 1]);
            j + 1
        }
    }
}

/// In the listing of a directory the disk has, an entry shown as present in the cloud only
/// has a name that no local entry has; it is the last cloud item of that name, a directory
/// exactly when that item's type says so, at that item's path and with no local copy.
pub proof fn lemma_cloud_only_entries(entries: Seq<LocalEntry>, items: Seq<DirItem>, v: FileView)
    requires
        merged_listing(entries, items).contains(v),
        v.state is Cloud,
    ensures
        !has_entry_named(entries, v.name),
        last_named(items, v.name) matches Some(c) && (v.file_type is Dir <==> is_dir_type(
            c.item_type@,
        )) && v.cloud == Some(c.path@) && v.local is None,
{
    let locals = local_views(entries, items);
    let d = distinct_items(items);
    let remotes = cloud_only_views(d, entries);
    let all = locals + remotes;
    lemma_dirs_first_keeps_entries(all);
    to_multiset_contains(dirs_first(all), v);
    to_multiset_contains(all, v);
    let i = choose|i: int| 0 <= i < all.len() && all[i] == v;
    if i < locals.len() {
        assert(all[i] == local_view(entries[i], items));
        assert(false);
    } else {
        assert(remotes[i - locals.len()] == v);
        assert(remotes.contains(v));
        let k = lemma_cloud_only_member(d, entries, v);
        assert(d.contains(d[k]));
        lemma_distinct_is_last(items, d[k]);
    }
}

/// In the listing of a directory the disk does not have, the entries are the cloud's items,
/// one per name: each is the last cloud item of its name, a directory exactly when that
/// item's type says so, shown as present in the cloud only at the directory's path.
pub proof fn lemma_cloud_listing_kinds(
    path: Seq<char>,
    in_cloud: bool,
    cloud: Option<ItemResponse>,
    k: int,
)
    requires
        0 <= k < listing_view(path, in_cloud, cloud, None).len(),
    ensures
        ({
            let v = listing_view(path, in_cloud, cloud, None)[k];
            &&& last_named(cloud_items(cloud), v.name) matches Some(c) && (v.file_type is Dir
                <==> is_dir_type(c.item_type@))
            &&& v.state is Cloud
            &&& v.cloud == Some(path)
            &&& v.local is None
        }),
{
    let d = distinct_items(cloud_items(cloud));
    assert(d.contains(d[k]));
    lemma_distinct_is_last(cloud_items(cloud), d[k]);
}

/// In the listing of a directory the disk has, an entry not shown as cloud-only is one of
/// the local entries: same name and path, a plain file exactly when the entry is one, and
/// synced (recording the last cloud item's path) exactly when the cloud lists its name.
pub proof fn lemma_local_entries_in_listing(
    entries: Seq<LocalEntry>,
    items: Seq<DirItem>,
    v: FileView,
) -> (k: int)
    requires
        merged_listing(entries, items).contains(v),
        !(v.state is Cloud),
    ensures
        0 <= k < entries.len(),
        entries[k].name@ == v.name,
        v.local == Some(entries[k].path@),
        v.file_type is File <==> entries[k].is_file,
        v.state is Synced <==> has_item_named(items, v.name),
        v.state is Synced || v.state is Local,
        last_named(items, v.name) matches Some(c) ==> v.cloud == Some(c.path@),
        last_named(items, v.name) is None ==> v.cloud is None,
{
    let locals = local_views(entries, items);
    let d = distinct_items(items);
    let remotes = cloud_only_views(d, entries);
    let all = locals + remotes;
    lemma_dirs_first_keeps_entries(all);
    to_multiset_contains(dirs_first(all), v);
    to_multiset_contains(all, v);
    let i = choose|i: int| 0 <= i < all.len() && all[i] == v;
    if i >= locals.len() {
        assert(remotes[i - locals.len()] == v);
        assert(remotes.contains(v));
        let j = lemma_cloud_only_member(d, entries, v);
        assert(false);
    }
    assert(all[i] == local_view(entries[i], items));
    lemma_synced_iff_in_cloud(items, v.name);
    i
}

/// The entries of `of_type(s, t)` are all of kind `t`.
proof fn lemma_of_type_kind(s: Seq<FileView>, t: NodeType, i: int)
    requires
        0 <= i < of_type(s, t).len(),
    ensures
        of_type(s, t)[i].file_type == t,
    decreases s.len(),
{
    if s.len() > 0 {
        let rest = of_type(s.drop_last(), t);
        if s.last().file_type == t {
            if i < rest.len() {
                lemma_of_type_kind(s.drop_last(), t, i);
            }
        } else {
            lemma_of_type_kind(s.drop_last(), t, i);
        }
    }
}

/// A listing of a directory the disk has shows every directory before every plain file.
pub proof fn lemma_dirs_before_files(entries: Seq<LocalEntry>, items: Seq<DirItem>, i: int, j: int)
    requires
        0 <= i < j < merged_listing(entries, items).len(),
        merged_listing(entries, items)[j].file_type is Dir,
    ensures
        merged_listing(entries, items)[i].file_type is Dir,
{
    let all = local_views(entries, items) + cloud_only_views(distinct_items(items), entries);
    let a = of_type(all, NodeType::Dir);
    let b = of_type(all, NodeType::File);
    if j >= a.len() {
        lemma_of_type_kind(all, NodeType::File, j - a.len());
        assert(merged_listing(entries, items)[j] == b[j - a.len()]);
    }
    assert(j < a.len());
    assert(merged_listing(entries, items)[i] == a[i]);
    lemma_of_type_kind(all, NodeType::Dir, i);
}

/// No two entries of `s` share a name.
pub open spec fn names_distinct(s: Seq<FileView>) -> bool {
    forall|i: int, j: int| 0 <= i < j < s.len() ==> s[i].name != s[j].name
}

/// No two local entries share a name.
pub open spec fn entry_names_distinct(entries: Seq<LocalEntry>) -> bool {
    forall|i: int, j: int| 0 <= i < j < entries.len() ==> entries[i].name@ != entries[j].name@
}

proof fn lemma_distinct_items_names(items: Seq<DirItem>)
    ensures
        forall|i: int, j: int|
            0 <= i < j < distinct_items(items).len() ==> distinct_items(items)[i].name@
                != distinct_items(items)[j].name@,
        forall|i: int|
            0 <= i < distinct_items(items).len() ==> items.contains(
                #[trigger] distinct_items(items)[i],
            ),
    decreases items.len(),
{
    if items.len() > 0 {
        let x = items[0];
        let rest = items.subrange(1, items.len() as int);
        let dr = distinct_items(rest);
        lemma_distinct_items_names(rest);
        assert forall|i: int| 0 <= i < dr.len() implies items.contains(#[trigger] dr[i]) by {
            let k = choose|k: int| 0 <= k < rest.len() && rest[k] == dr[i];
            assert(items[k + 1] == dr[i]);
        }
        if !has_item_named(rest, x.name@) {
            let d = distinct_items(items);
            assert(d == seq![x] + dr);
            assert forall|i: int, j: int| 0 <= i < j < d.len() implies d[i].name@ != d[j].name@ by {
                if i == 0 {
                    let k = choose|k: int| 0 <= k < rest.len() && rest[k] == dr[j - 1];
                    assert(rest[k].name@ == d[j].name@);
                } else {
                    assert(d[i] == dr[i - 1] && d[j] == dr[j - 1]);
                }
            }
            assert forall|i: int| 0 <= i < d.len() implies items.contains(#[trigger] d[i]) by {
                if i == 0 {
                    assert(items[0] == d[0]);
                } else {
                    assert(d[i] == dr[i - 1]);
                }
            }
        }
    }
}

proof fn lemma_cloud_only_names(distinct: Seq<DirItem>, entries: Seq<LocalEntry>)
    requires
        forall|i: int, j: int|
            0 <= i < j < distinct.len() ==> distinct[i].name@ != distinct[j].name@,
    ensures
        names_distinct(cloud_only_views(distinct, entries)),
    decreases distinct.len(),
{
    if distinct.len() > 0 {
        let rest = distinct.subrange(1, distinct.len() as int);
        let tail = cloud_only_views(rest, entries);
        lemma_cloud_only_names(rest, entries);
        if !has_entry_named(entries, distinct[0].name@) {
            let all = cloud_only_views(distinct, entries);
            let head = seq![remote_view(distinct[0], distinct[0].path@)];
            assert(all == head + tail);
            assert forall|i: int, j: int| 0 <= i < j < all.len() implies all[i].name
                != all[j].name by {
                if i == 0 {
                    assert(tail[j - 1] == all[j]);
                    assert(tail.contains(all[j]));
                    let k = lemma_cloud_only_member(rest, entries, all[j]);
                    assert(rest[k] == distinct[k + 1]);
                } else {
                    assert(all[i] == tail[i - 1] && all[j] == tail[j - 1]);
                }
            }
        }
    }
}

proof fn lemma_of_type_names(s: Seq<FileView>, t: NodeType)
    requires
        names_distinct(s),
    ensures
        names_distinct(of_type(s, t)),
        forall|i: int| 0 <= i < of_type(s, t).len() ==> s.contains(#[trigger] of_type(s, t)[i]),
    decreases s.len(),
{
    if s.len() > 0 {
        let d = s.drop_last();
        let rest = of_type(d, t);
        assert(names_distinct(d)) by {
            assert forall|i: int, j: int| 0 <= i < j < d.len() implies d[i].name != d[j].name by {
                assert(d[i] == s[i] && d[j] == s[j]);
            }
        }
        lemma_of_type_names(d, t);
        assert forall|i: int| 0 <= i < rest.len() implies s.contains(#[trigger] rest[i]) by {
            let k = choose|k: int| 0 <= k < d.len() && d[k] == rest[i];
            assert(s[k] == rest[i]);
        }
        if s.last().file_type == t {
            let o = rest.push(s.last());
            assert forall|i: int, j: int| 0 <= i < j < o.len() implies o[i].name != o[j].name by {
                if j == rest.len() {
                    let k = choose|k: int| 0 <= k < d.len() && d[k] == rest[i];
                    assert(s[k] == o[i]);
                    assert(s[s.len() - 1] == o[j]);
                } else {
                    assert(o[i] == rest[i] && o[j] == rest[j]);
                }
            }
            assert forall|i: int| 0 <= i < o.len() implies s.contains(#[trigger] o[i]) by {
                if i == rest.len() {
                    assert(s[s.len() - 1] == o[i]);
                } else {
                    assert(o[i] == rest[i]);
                }
            }
        }
    }
}

/// A listing of a directory the disk has names nothing twice, as long as the local
/// directory does not: a synced entry is listed once, not again as present in the cloud.
pub proof fn lemma_listing_names_distinct(entries: Seq<LocalEntry>, items: Seq<DirItem>)
    requires
        entry_names_distinct(entries),
    ensures
        names_distinct(merged_listing(entries, items)),
{
    let locals = local_views(entries, items);
    let d = distinct_items(items);
    let remotes = cloud_only_views(d, entries);
    let all = locals + remotes;
    lemma_distinct_items_names(items);
    lemma_cloud_only_names(d, entries);
    assert forall|i: int, j: int| 0 <= i < j < all.len() implies all[i].name != all[j].name by {
        if j < locals.len() {
            assert(all[i] == local_view(entries[i], items));
            assert(all[j] == local_view(entries[j], items));
        } else if i < locals.len() {
            assert(all[i] == local_view(entries[i], items));
            assert(remotes[j - locals.len()] == all[j]);
            assert(remotes.contains(all[j]));
            let k = lemma_cloud_only_member(d, entries, all[j]);
            if all[i].name == all[j].name {
                assert(entries[i].name@ == d[k].name@);
                assert(has_entry_named(entries, d[k].name@));
            }
        } else {
            assert(all[i] == remotes[i - locals.len()] && all[j] == remotes[j - locals.len()]);
        }
    }
    lemma_of_type_names(all, NodeType::Dir);
    lemma_of_type_names(all, NodeType::File);
    let a = of_type(all, NodeType::Dir);
    let b = of_type(all, NodeType::File);
    let m = merged_listing(entries, items);
    assert(m == a + b);
    assert forall|i: int, j: int| 0 <= i < j < m.len() implies m[i].name != m[j].name by {
        if j < a.len() {
            assert(m[i] == a[i] && m[j] == a[j]);
        } else if i >= a.len() {
            assert(m[i] == b[i - a.len()] && m[j] == b[j - a.len()]);
        } else {
            assert(m[i] == a[i] && m[j] == b[j - a.len()]);
            lemma_of_type_kind(all, NodeType::Dir, i);
            lemma_of_type_kind(all, NodeType::File, j - a.len());
            assert(all.contains(a[i]));
            assert(all.contains(b[j - a.len()]));
            let p = choose|p: int| 0 <= p < all.len() && all[p] == a[i];
            let q = choose|q: int| 0 <= q < all.len() && all[q] == b[j - a.len()];
            assert(p != q);
            if p < q {
                assert(all[p].name != all[q].name);
            } else {
                assert(all[q].name != all[p].name);
            }
        }
    }
}

}
