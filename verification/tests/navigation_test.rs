use yad_tui::components::main_screen::current_dir::CurrentDir;
use yad_tui::components::main_screen::next_dir::NextDir;
use yad_tui::components::main_screen::previous_dir::PreviousDir;
use yad_tui::error::AppError;
use yad_tui::fs::DirPanes;
use yad_tui::models::file::{File, NodeType, State};

fn f(name: &str, t: NodeType) -> File {
    File { name: name.to_string(), file_type: t, state: State::Local, cloud: None, local: None }
}

fn root_listing() -> Vec<File> {
    vec![f("docs", NodeType::Dir), f("notes.txt", NodeType::File)]
}

#[test]
fn create_previews_first_directory() {
    let (panes, target) = DirPanes::create(f("/", NodeType::Dir), root_listing());
    assert_eq!(panes.current_dir.path, "/");
    assert_eq!(panes.current_dir.selected, Some(0));
    assert!(panes.previous_dir.is_none());
    assert_eq!(target, Some("/docs".to_string()));
    let (_, target) = DirPanes::create(f("/", NodeType::Dir), vec![f("a.txt", NodeType::File)]);
    assert_eq!(target, None);
    let (_, target) = DirPanes::create(f("/", NodeType::Dir), vec![]);
    assert_eq!(target, None);
}

#[test]
fn selection_moves_and_drops_preview() {
    let (mut panes, _) = DirPanes::create(f("/", NodeType::Dir), root_listing());
    panes.next_dir = Some(NextDir::new("/docs".to_string(), f("docs", NodeType::Dir), vec![]));
    panes.select_next_element();
    assert_eq!(panes.current_dir.selected, Some(1));
    assert!(panes.next_dir.is_none());
    assert_eq!(panes.next_dir_path().unwrap(), None);
    panes.select_next_element();
    assert_eq!(panes.current_dir.selected, Some(2));
    assert!(matches!(panes.next_dir_path(), Err(AppError::MissingSelectedElelement)));
    panes.select_previous_element();
    panes.select_previous_element();
    panes.select_previous_element();
    assert_eq!(panes.current_dir.selected, Some(0));
    assert_eq!(panes.next_dir_path().unwrap(), Some("/docs".to_string()));
}

#[test]
fn selection_without_current_choice() {
    let mut cur = CurrentDir::new("/".to_string(), f("/", NodeType::Dir), root_listing());
    cur.selected = None;
    cur.select_previous();
    assert_eq!(cur.selected, Some(usize::MAX));
    cur.selected = None;
    cur.select_next();
    assert_eq!(cur.selected, Some(0));
    cur.selected = Some(usize::MAX);
    cur.select_next();
    assert_eq!(cur.selected, Some(usize::MAX));
}

#[test]
fn open_then_go_back() {
    let (mut panes, _) = DirPanes::create(f("/", NodeType::Dir), root_listing());
    let target = panes.begin_open_selected().unwrap();
    assert_eq!(target, Some("/docs".to_string()));
    assert_eq!(panes.previous_dir.as_ref().unwrap().path, "/");
    let has_entries = panes.enter_dir("/docs".to_string(), f("docs", NodeType::Dir), vec![f("x", NodeType::File)]);
    assert!(has_entries);
    assert_eq!(panes.current_dir.path, "/docs");
    let (back, up) = panes.previous_target().unwrap();
    assert_eq!(back, "/");
    assert_eq!(up, None);
    panes.return_to(back, f("/", NodeType::Dir), root_listing());
    assert_eq!(panes.current_dir.path, "/");
    panes.set_previous_dir(None);
    assert!(panes.previous_dir.is_none());
    assert!(panes.previous_target().is_none());
}

#[test]
fn going_back_shows_the_parent_listing() {
    let (mut panes, _) = DirPanes::create(f("/", NodeType::Dir), root_listing());
    panes.begin_open_selected().unwrap();
    panes.enter_dir("/docs".to_string(), f("docs", NodeType::Dir), vec![f("deep", NodeType::Dir)]);
    panes.begin_open_selected().unwrap();
    panes.enter_dir("/docs/deep".to_string(), f("deep", NodeType::Dir), vec![]);
    let (back, up) = panes.previous_target().unwrap();
    assert_eq!(back, "/docs");
    assert_eq!(up, Some("/".to_string()));
    panes.return_to(back, f("docs", NodeType::Dir), vec![f("deep", NodeType::Dir)]);
    panes.set_previous_dir(Some((up.unwrap(), f("/", NodeType::Dir), root_listing())));
    let prev = panes.previous_dir.as_ref().unwrap();
    assert_eq!(prev.path, "/");
    assert_eq!(prev.items, root_listing());
    assert_eq!(panes.current_dir.path, "/docs");
    assert_eq!(panes.previous_target().unwrap(), ("/".to_string(), None));
}

#[test]
fn opening_a_file_changes_nothing() {
    let (mut panes, _) = DirPanes::create(f("/", NodeType::Dir), root_listing());
    panes.select_next_element();
    assert_eq!(panes.begin_open_selected().unwrap(), None);
    assert!(panes.previous_dir.is_none());
    let prev = PreviousDir::new("/a".to_string(), f("a", NodeType::Dir), vec![]);
    panes.previous_dir = Some(prev);
    assert_eq!(panes.previous_target().unwrap(), ("/a".to_string(), Some("/".to_string())));
}

#[test]
fn background_preview_is_kept_only_for_selection() {
    let (mut panes, _) = DirPanes::create(f("/", NodeType::Dir), root_listing());
    panes.accept_next_dir(Some(NextDir::new("/other".to_string(), f("other", NodeType::Dir), vec![])));
    assert!(panes.next_dir.is_none());
    panes.accept_next_dir(Some(NextDir::new("/docs".to_string(), f("docs", NodeType::Dir), vec![])));
    assert_eq!(panes.next_dir.as_ref().unwrap().path, "/docs");
    panes.accept_next_dir(None);
    assert!(panes.next_dir.is_some());
}

#[test]
fn refresh_ignores_other_directories() {
    let (mut panes, _) = DirPanes::create(f("/", NodeType::Dir), root_listing());
    panes.refresh_current(&"/elsewhere".to_string(), f("x", NodeType::Dir), vec![]);
    assert_eq!(panes.current_dir.items.len(), 2);
    panes.current_dir.selected = Some(1);
    panes.refresh_current(&"/".to_string(), f("/", NodeType::Dir), vec![]);
    assert_eq!(panes.current_dir.items.len(), 0);
    assert_eq!(panes.current_dir.selected, Some(1));
    panes.refresh_current(&"//.".to_string(), f("/", NodeType::Dir), root_listing());
    assert_eq!(panes.current_dir.items.len(), 2);
    assert_eq!(panes.current_dir.path, "/");
}

#[test]
fn file_labels_and_states() {
    let mut file = f("notes.txt", NodeType::File);
    file.state = State::Synced;
    assert_eq!(file.label(), " ! (S) notes.txt");
    let mut dir = f("docs", NodeType::Dir);
    dir.state = State::Syncing;
    assert_eq!(dir.label(), " * (SI) docs");
    assert!(dir.is_dir() && !dir.is_file());
    assert!(file.is_file() && !file.is_dir());
    assert_eq!(State::Local.symbol(), "(L)");
    assert_eq!(State::Cloud.symbol(), "(C)");
    assert!(!State::Local.in_cloud());
    assert!(State::Cloud.in_cloud() && State::Synced.in_cloud() && State::Syncing.in_cloud());
}

#[test]
fn down_then_up_returns_to_entry() {
    let mut cur = CurrentDir::new("/".to_string(), f("/", NodeType::Dir), root_listing());
    cur.selected = Some(4);
    cur.select_next();
    cur.select_previous();
    assert_eq!(cur.selected, Some(4));
    cur.select_previous();
    cur.select_next();
    assert_eq!(cur.selected, Some(4));
}
