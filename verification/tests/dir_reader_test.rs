use yad_tui::components::main_screen::current_dir::CurrentDir;
use yad_tui::disk_client::{DirItem, DirItems, ItemResponse};
use yad_tui::fs::DirPanes;
use yad_tui::workers::worker::{WorkerState, UPDATE_CURRENT_DIR_INTERVAL_SECS};
use yad_tui::error::AppError;
use yad_tui::models::file::{CloudFile, File, LocalFile, NodeType, State};
use yad_tui::utils::dir_reader::{read_dir_listing, LocalEntry};

fn item(name: &str, path: &str, kind: &str) -> DirItem {
    DirItem {
        name: name.to_string(),
        resource_id: "id".to_string(),
        path: path.to_string(),
        item_type: kind.to_string(),
        created: "c".to_string(),
        modified: "m".to_string(),
        revision: 1,
    }
}

fn response(path: &str, items: Vec<DirItem>) -> ItemResponse {
    ItemResponse {
        name: "dir".to_string(),
        resource_id: "id".to_string(),
        path: path.to_string(),
        item_type: "dir".to_string(),
        created: "c".to_string(),
        modified: "m".to_string(),
        revision: 1,
        _embedded: DirItems { limit: 1000, offset: 0, total: items.len() as u32, items },
    }
}

fn entry(name: &str, is_file: bool) -> LocalEntry {
    LocalEntry { name: name.to_string(), is_file, path: format!("/sync/docs/{}", name) }
}

fn names(files: &[File]) -> Vec<(String, NodeType, State)> {
    files.iter().map(|f| (f.name.clone(), f.file_type.clone(), f.state.clone())).collect()
}

#[test]
fn merges_local_and_cloud_entries() {
    let cloud = response(
        "disk:/docs",
        vec![
            item("a.txt", "disk:/docs/a.txt", "file"),
            item("remote", "disk:/docs/remote", "dir"),
            item("b.txt", "disk:/docs/b.txt", "file"),
            item("b.txt", "disk:/docs/b2.txt", "file"),
        ],
    );
    let local = vec![entry("a.txt", true), entry("mine", false), entry("local.txt", true)];
    let (root, files) =
        read_dir_listing(&"/docs".to_string(), "/sync", Ok(()), Some(cloud), Ok(local)).unwrap();
    assert_eq!(root.name, "docs");
    assert_eq!(root.state, State::Synced);
    assert_eq!(root.cloud, Some(CloudFile { path: "disk:/docs".to_string() }));
    assert_eq!(root.local, Some(LocalFile { path: "/sync//docs".to_string() }));
    assert_eq!(
        names(&files),
        vec![
            ("mine".to_string(), NodeType::Dir, State::Local),
            ("remote".to_string(), NodeType::Dir, State::Cloud),
            ("a.txt".to_string(), NodeType::File, State::Synced),
            ("local.txt".to_string(), NodeType::File, State::Local),
            ("b.txt".to_string(), NodeType::File, State::Cloud),
        ]
    );
    assert_eq!(files[2].cloud, Some(CloudFile { path: "disk:/docs/a.txt".to_string() }));
    assert_eq!(files[2].local, Some(LocalFile { path: "/sync/docs/a.txt".to_string() }));
    assert_eq!(files[4].cloud, Some(CloudFile { path: "disk:/docs/b2.txt".to_string() }));
    assert_eq!(files[4].local, None);
}

#[test]
fn cloud_only_directory_lists_cloud_items() {
    let cloud = response("disk:/current", vec![item("test_inner_file", "test_path", "dir")]);
    let err = AppError::LogicalError("missing".to_string());
    let (root, files) =
        read_dir_listing(&"/current".to_string(), "./tmp/sync_dir/", Ok(()), Some(cloud), Err(err))
            .unwrap();
    assert_eq!(root.name, "current");
    assert_eq!(root.state, State::Cloud);
    assert_eq!(root.local, None);
    assert_eq!(files.len(), 1);
    assert_eq!(files[0].name, "test_inner_file");
    assert_eq!(files[0].file_type, NodeType::Dir);
    assert_eq!(files[0].cloud, Some(CloudFile { path: "/current".to_string() }));
}

#[test]
fn local_only_directory_lists_local_entries() {
    let local = vec![entry("z.txt", true), entry("sub", false)];
    let (root, files) = read_dir_listing(
        &"/docs".to_string(),
        "/sync",
        Err(AppError::LogicalError("offline".to_string())),
        None,
        Ok(local),
    )
    .unwrap();
    assert_eq!(root.state, State::Local);
    assert_eq!(root.cloud, None);
    assert_eq!(
        names(&files),
        vec![
            ("sub".to_string(), NodeType::Dir, State::Local),
            ("z.txt".to_string(), NodeType::File, State::Local),
        ]
    );
}

#[test]
fn missing_everywhere_reports_both_errors() {
    let r = read_dir_listing(
        &"/gone".to_string(),
        "/sync",
        Err(AppError::LogicalError("cloud".to_string())),
        None,
        Err(AppError::LogicalError("disk".to_string())),
    );
    match r {
        Err(AppError::MultipleErrors(v)) => {
            assert_eq!(v.len(), 2);
            assert!(matches!(&v[0], AppError::LogicalError(m) if m == "cloud"));
            assert!(matches!(&v[1], AppError::LogicalError(m) if m == "disk"));
        }
        other => panic!("unexpected {:?}", other),
    }
}

#[test]
fn unnamed_directory_is_refused() {
    let r = read_dir_listing(&"/a/..".to_string(), "/sync", Ok(()), None, Ok(vec![]));
    assert!(matches!(r, Err(AppError::InvalidFileName(_))));
}

#[test]
fn refresh_worker_updates_current_dir() {
    let fake_disk_item_response = ItemResponse {
        name: "current".to_string(),
        resource_id: "test_resource_id".to_string(),
        path: "test_path".to_string(),
        item_type: "dir".to_string(),
        created: "2016-04-20T12:54:28+00:00".to_string(),
        modified: "2016-04-20T12:54:28+00:00".to_string(),
        revision: 1461156869222238,
        _embedded: DirItems {
            limit: 3,
            offset: 0,
            total: 10,
            items: vec![DirItem {
                name: "test_inner_file".to_string(),
                resource_id: "test_resource_id".to_string(),
                path: "test_path".to_string(),
                item_type: "dir".to_string(),
                created: "2016-04-20T12:54:28+00:00".to_string(),
                modified: "2016-04-20T12:54:28+00:00".to_string(),
                revision: 1461156869222238,
            }],
        },
    };
    let current_path = "/current".to_string();
    let old_item = File {
        name: fake_disk_item_response.name.clone(),
        file_type: NodeType::Dir,
        state: State::Local,
        cloud: None,
        local: None,
    };
    let old_file = File {
        name: "old_file".to_string(),
        file_type: NodeType::File,
        state: State::Local,
        cloud: None,
        local: None,
    };
    let mut panes = DirPanes {
        previous_dir: None,
        current_dir: CurrentDir::new(current_path.clone(), old_item, vec![old_file]),
        next_dir: None,
    };

    let worker = WorkerState::new(100);
    assert!(worker.is_due(100 + UPDATE_CURRENT_DIR_INTERVAL_SECS + 1, UPDATE_CURRENT_DIR_INTERVAL_SECS));
    let new_worker = worker.started(200);
    assert!(new_worker.blocked);
    assert!(!new_worker.is_due(10_000, UPDATE_CURRENT_DIR_INTERVAL_SECS));

    let (f, i) = read_dir_listing(
        &current_path,
        "./tmp/sync_dir/",
        Ok(()),
        Some(fake_disk_item_response.clone()),
        Err(AppError::LogicalError("no local dir".to_string())),
    )
    .unwrap();
    panes.refresh_current(&current_path, f, i);
    let updated_worker = new_worker.finished();
    assert!(!updated_worker.blocked);

    assert_eq!(panes.current_dir.path, current_path);
    assert_eq!(panes.current_dir.item.name, fake_disk_item_response.name);
    assert_eq!(panes.current_dir.items.len(), 1);
    assert_eq!(
        panes.current_dir.items[0].name,
        fake_disk_item_response._embedded.items[0].name
    );
}
