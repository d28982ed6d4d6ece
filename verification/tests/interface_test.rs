use yad_tui::error::AppError;
use yad_tui::disk_client::DiskError;
use yad_tui::events::{message_for_key, Key};
use yad_tui::models::file::{CloudFile, File, LocalFile, NodeType, State};
use yad_tui::models::model::Popup;
use yad_tui::ui::{code_view, popup_view, PopupView};
use yad_tui::update::{update, Effect, InputAction, Message};
use yad_tui::utils::file_downloader::{finish_step, plan_download, FinishStep};

fn login(code: &str) -> Option<Popup> {
    Some(Popup::LoginForm { code_input: code.to_string(), error_message: None })
}

#[test]
fn keys_map_to_messages() {
    assert!(message_for_key(false, Key::Char('q')) == Message::Exit);
    assert!(message_for_key(false, Key::Esc) == Message::Exit);
    assert!(message_for_key(false, Key::Char('j')) == Message::MoveDown);
    assert!(message_for_key(false, Key::Down) == Message::MoveDown);
    assert!(message_for_key(false, Key::Up) == Message::MoveUp);
    assert!(message_for_key(false, Key::Char('c')) == Message::ShowConfig);
    assert!(message_for_key(false, Key::Enter) == Message::Continue);
    assert!(message_for_key(true, Key::Char('q')) == Message::ClosePopup);
    assert!(message_for_key(true, Key::Char('7')) == Message::InputModeAction(InputAction::InputChar('7')));
    assert!(message_for_key(true, Key::Backspace) == Message::InputModeAction(InputAction::DeleteChar));
    assert!(message_for_key(true, Key::Enter) == Message::InputModeAction(InputAction::Send));
    assert!(message_for_key(true, Key::Down) == Message::Continue);
}

#[test]
fn messages_update_interface() {
    let s = update(None, Message::MoveDown);
    assert!(matches!(s.effect, Effect::SelectNext) && s.next == Some(Message::Continue));
    let s = update(Some(Popup::Config), Message::MoveDown);
    assert!(matches!(s.effect, Effect::Nothing) && matches!(s.popup, Some(Popup::Config)));
    let s = update(None, Message::ShowConfig);
    assert!(matches!(s.popup, Some(Popup::Config)));
    let s = update(Some(Popup::Config), Message::ClosePopup);
    assert!(s.popup.is_none());
    let s = update(None, Message::Exit);
    assert!(s.next.is_none());
    let s = update(login("12"), Message::InputModeAction(InputAction::InputChar('3')));
    assert!(matches!(s.popup, Some(Popup::LoginForm { ref code_input, .. }) if code_input == "123"));
    let s = update(login("12"), Message::InputModeAction(InputAction::DeleteChar));
    assert!(matches!(s.popup, Some(Popup::LoginForm { ref code_input, .. }) if code_input == "1"));
    let s = update(login("12"), Message::InputModeAction(InputAction::Send));
    assert!(matches!(s.effect, Effect::SendForm(ref c) if c == "12"));
    let s = update(None, Message::DownloadFile);
    assert!(matches!(s.effect, Effect::DownloadSelected));
    let s = update(None, Message::EnterSelectedDir);
    assert!(matches!(s.effect, Effect::OpenSelected));
    let s = update(None, Message::EnterPrevDir);
    assert!(matches!(s.effect, Effect::OpenPrevious));
    let s = update(Some(Popup::Config), Message::InputModeAction(InputAction::InputChar('3')));
    assert!(matches!(s.popup, Some(Popup::Config)));
}

#[test]
fn popup_views() {
    assert!(matches!(popup_view(true, &Some(Popup::Config)), PopupView::ConfigText));
    assert!(matches!(popup_view(false, &login("9")), PopupView::LoginForm { ref code_input, .. } if code_input == "9"));
    assert!(matches!(popup_view(true, &None), PopupView::Nothing));
    assert!(matches!(popup_view(false, &None), PopupView::Invalid));
    assert!(matches!(popup_view(true, &login("9")), PopupView::Invalid));
}

#[test]
fn code_is_shown_dashed() {
    assert_eq!(code_view(""), "");
    assert_eq!(code_view("1"), "1");
    assert_eq!(code_view("123"), "1-2-3");
}

#[test]
fn downloads_are_planned() {
    let file = File {
        name: "test_file.ext".to_string(),
        file_type: NodeType::File,
        state: State::Cloud,
        cloud: Some(CloudFile { path: "test_f_name.ext".to_string() }),
        local: None,
    };
    let plan = plan_download("./tmp/cache", "./tmp/sync_dir/", &file, 1700000000).unwrap();
    assert_eq!(plan.temp_dir_path, "./tmp/cache/tmp/test_f_name.ext_1700000000");
    assert_eq!(plan.temp_full_path, "./tmp/cache/tmp/test_f_name.ext_1700000000/test_file.ext");
    assert_eq!(plan.local_path, "./tmp/sync_dir/test_f_name.ext");
    assert!(!plan.extract);
    assert_eq!(finish_step(&plan, true), FinishStep::MoveIntoPlace);

    let dir = File {
        name: "fake_dir.zip".to_string(),
        file_type: NodeType::Dir,
        state: State::Cloud,
        cloud: Some(CloudFile { path: "test_dir_name".to_string() }),
        local: None,
    };
    let plan = plan_download("c", "s/", &dir, 5).unwrap();
    assert_eq!(plan.temp_full_path, "c/tmp/test_dir_name_5/fake_dir.zip.zip");
    assert_eq!(plan.local_path, "s/test_dir_name");
    assert_eq!(finish_step(&plan, true), FinishStep::ReplaceAndExtract);
    assert_eq!(finish_step(&plan, false), FinishStep::Extract);

    let local_only = File { cloud: None, ..file };
    match plan_download("c", "s", &local_only, 1) {
        Err(AppError::LogicalError(m)) => assert_eq!(
            m,
            format!("Only cloud file can be downloaded, try download {:?}", local_only)
        ),
        other => panic!("unexpected {:?}", other),
    }
}

#[test]
fn error_messages() {
    assert_eq!(AppError::invalid_f_name("bad", "x").message(), "bad - x");
    assert_eq!(AppError::LogicalError("oops".to_string()).message(), "Logical error: oops");
    assert_eq!(AppError::DiskErrors(DiskError::unauthorized_default()).message(), "disk.errors.unauthorized");
    assert_eq!(
        AppError::ConvertOsStringToStringErr("a\"b".to_string()).message(),
        "Convert os string to string error \"a\\\"b\""
    );
    let io = std::io::Error::new(std::io::ErrorKind::NotFound, "gone");
    assert_eq!(AppError::FSErrors(io).message(), "gone");
    assert_eq!(AppError::MultipleErrors(vec![]).message(), "Multiple app errors: []");
    let nested = vec![
        AppError::LogicalError("a".to_string()),
        AppError::MultipleErrors(vec![AppError::ConvertPathBufToStr, AppError::DiskErrors(DiskError::EmptyToken)]),
        AppError::FSErrors(std::io::Error::new(std::io::ErrorKind::Other, "disk \"full\"")),
    ];
    let expected = format!("Multiple app errors: {:?}", nested);
    assert_eq!(AppError::MultipleErrors(nested).message(), expected);
    assert_eq!(AppError::DBError(jammdb::Error::BucketMissing).message(), "DB error: Bucket does not exist");
}

#[test]
fn error_debug_text_matches_derived_debug() {
    let errors = vec![
        AppError::DiskErrors(DiskError::UnknownServer("x \"y\"".to_string())),
        AppError::DiskErrors(DiskError::EmptyToken),
        AppError::FSErrors(std::io::Error::new(std::io::ErrorKind::NotFound, "gone")),
        AppError::InvalidFileName("bad\tname".to_string()),
        AppError::InvalidPathToDelete("/tmp".to_string()),
        AppError::ConvertOsStringToStringErr("\u{fffd}".to_string()),
        AppError::ConvertPathBufToStr,
        AppError::MissingSelectedElelement,
        AppError::MultipleErrors(vec![]),
        AppError::MultipleErrors(vec![AppError::LogicalError("one".to_string())]),
        AppError::LogicalError("oops".to_string()),
        AppError::DBError(jammdb::Error::BucketMissing),
    ];
    for e in &errors {
        assert_eq!(e.debug_text(), format!("{:?}", e));
    }
    assert_eq!(
        AppError::MultipleErrors(vec![AppError::ConvertPathBufToStr, AppError::LogicalError("z".to_string())])
            .debug_text(),
        "MultipleErrors([ConvertPathBufToStr, LogicalError(\"z\")])"
    );
    assert_eq!(DiskError::Forbidden("no".to_string()).debug_text(), "Forbidden(\"no\")");
}

#[test]
fn file_debug_text_matches_derived_debug() {
    let file = File {
        name: "a \"b\".txt".to_string(),
        file_type: NodeType::File,
        state: State::Cloud,
        cloud: Some(CloudFile { path: "disk:/a".to_string() }),
        local: None,
    };
    assert_eq!(file.debug_text(), format!("{:?}", file));
    assert_eq!(
        file.debug_text(),
        "File { name: \"a \\\"b\\\".txt\", file_type: File, state: Cloud, cloud: Some(CloudFile { path: \"disk:/a\" }), local: None }"
    );
    let local = File {
        name: "d".to_string(),
        file_type: NodeType::Dir,
        state: State::Synced,
        cloud: None,
        local: Some(LocalFile { path: "/home/d".to_string() }),
    };
    assert_eq!(local.debug_text(), format!("{:?}", local));
}
