use yad_tui::models::model::{starting_popup, Popup};
use yad_tui::updaters::login_form::{popup_after_login, remove_last_symbol, update_form, update_input, LoginOutcome};

#[test]
fn test_add_symbol() {
    let test_popup = Popup::LoginForm {
        code_input: "".to_string(),
        error_message: None,
    };

    match update_input(Some(test_popup), '1') {
        Some(Popup::LoginForm {
            code_input,
            error_message: _,
        }) => {
            assert_eq!(code_input, "1".to_string(), "should be changed")
        }

        _ => panic!("wrong_popup type"),
    }
}

#[test]
fn test_add_wrong_symbol() {
    let test_popup = Popup::LoginForm {
        code_input: "".to_string(),
        error_message: None,
    };

    match update_input(Some(test_popup), 'a') {
        Some(Popup::LoginForm {
            code_input,
            error_message: _,
        }) => assert_eq!(
            code_input,
            "".to_string(),
            "should not change on wrong symbol input"
        ),

        _ => panic!("wrong_popup type"),
    }
}

#[test]
fn test_delete_symbol() {
    let test_popup = Popup::LoginForm {
        code_input: "123".to_string(),
        error_message: None,
    };

    match remove_last_symbol(Some(test_popup)) {
        Some(Popup::LoginForm {
            code_input,
            error_message: _,
        }) => {
            assert_eq!(code_input, "12".to_string(), "should remove last symbol")
        }

        _ => panic!("wrong_popup type"),
    }
}

fn code_of(p: Option<Popup>) -> (String, Option<String>) {
    match p {
        Some(Popup::LoginForm { code_input, error_message }) => (code_input, error_message),
        _ => panic!("wrong_popup type"),
    }
}

#[test]
fn typing_clears_previous_error() {
    let p = Popup::LoginForm { code_input: "4".to_string(), error_message: Some("bad".to_string()) };
    assert_eq!(code_of(update_input(Some(p), '2')), ("42".to_string(), None));
}

#[test]
fn typing_stops_at_limit() {
    let full = "1".repeat(999);
    let p = Popup::LoginForm { code_input: full.clone(), error_message: None };
    assert_eq!(code_of(update_input(Some(p), '7')).0, full);
    let almost = "1".repeat(998);
    let p = Popup::LoginForm { code_input: almost.clone(), error_message: None };
    assert_eq!(code_of(update_input(Some(p), '7')).0.len(), 999);
}

#[test]
fn other_popups_pass_through() {
    assert!(matches!(update_input(Some(Popup::Config), '1'), Some(Popup::Config)));
    assert!(update_input(None, '1').is_none());
    assert!(matches!(remove_last_symbol(Some(Popup::Config)), Some(Popup::Config)));
    assert!(remove_last_symbol(None).is_none());
}

#[test]
fn deleting_from_empty_code_keeps_it_empty() {
    let p = Popup::LoginForm { code_input: "".to_string(), error_message: Some("x".to_string()) };
    assert_eq!(code_of(remove_last_symbol(Some(p))), ("".to_string(), None));
}

#[test]
fn type_then_delete_restores_code() {
    let p = Popup::LoginForm { code_input: "31".to_string(), error_message: None };
    let typed = update_input(Some(p), '9');
    assert_eq!(code_of(remove_last_symbol(typed)).0, "31".to_string());
}

#[test]
fn login_outcomes_set_popup() {
    assert_eq!(
        code_of(popup_after_login("123".to_string(), LoginOutcome::Rejected("no".to_string()))),
        ("123".to_string(), Some("no".to_string()))
    );
    assert_eq!(
        code_of(popup_after_login("123".to_string(), LoginOutcome::StoreFailed("disk full".to_string()))),
        ("".to_string(), Some("Auth token store error - disk full".to_string()))
    );
    assert!(popup_after_login("123".to_string(), LoginOutcome::Stored).is_none());
}

#[test]
fn update_form_leaves_other_popups_without_calling_closures() {
    let cond = |_: String| -> bool { panic!("cond called") };
    let mutator = |_: String| -> String { panic!("mutator called") };
    assert!(update_form(None, cond, mutator).is_none());
    assert!(matches!(update_form(Some(Popup::Config), cond, mutator), Some(Popup::Config)));
}

#[test]
fn update_form_applies_mutator_only_when_accepted() {
    let form = |code: &str| Popup::LoginForm { code_input: code.to_string(), error_message: Some("e".to_string()) };
    match update_form(Some(form("12")), |s| s.len() == 2, |s| s + "!") {
        Some(Popup::LoginForm { code_input, error_message }) => {
            assert_eq!(code_input, "12!");
            assert!(error_message.is_none());
        }
        _ => panic!("wrong popup"),
    }
    match update_form(Some(form("1")), |s| s.len() == 2, |s| s + "!") {
        Some(Popup::LoginForm { code_input, error_message }) => {
            assert_eq!(code_input, "1");
            assert!(error_message.is_none());
        }
        _ => panic!("wrong popup"),
    }
}

#[test]
fn starting_popup_asks_for_login_without_token() {
    assert!(starting_popup(true).is_none());
    match starting_popup(false) {
        Some(Popup::LoginForm { code_input, error_message }) => {
            assert_eq!(code_input, "");
            assert!(error_message.is_none());
        }
        _ => panic!("expected the login form"),
    }
}
