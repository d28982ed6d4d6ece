//! What each message does to the interface.
use vstd::prelude::*;
use crate::components::main_screen::current_dir::{next_selection, previous_selection};
use crate::models::model::Popup;
use crate::updaters::login_form::{code_after_delete, code_after_input, deletable, edited, remove_last_symbol, update_input};

verus! {

/// An edit of the login form.
#[derive(Debug, Clone, Copy, PartialEq, Eq, Structural)]
pub enum InputAction {
    InputChar(char),
    DeleteChar,
    Send,
}

/// What the user asked for.
#[derive(Debug, Clone, Copy, PartialEq, Eq, Structural)]
pub enum Message {
    Exit,
    Continue,
    MoveDown,
    MoveUp,
    ShowConfig,
    ClosePopup,
    EnterSelectedDir,
    EnterPrevDir,
    InputModeAction(InputAction),
    DownloadFile,
}

/// Work a message leaves to the caller: moving through the tree, sending the login code,
/// or downloading the selected entry.
#[derive(Debug)]
pub enum Effect {
    Nothing,
    SelectNext,
    SelectPrevious,
    OpenSelected,
    OpenPrevious,
    SendForm(String),
    DownloadSelected,
}

/// The outcome of a message: the popup to show, the work to do, and the next message
/// (`None` ends the program).
#[derive(Debug)]
pub struct Step {
    pub popup: Option<Popup>,
    pub effect: Effect,
    pub next: Option<Message>,
}

/// The work a message asks for. Moving and opening act only without a popup; sending
/// needs the login form, whose code it sends.
pub open spec fn effect_of(msg: Message, popup: Option<Popup>) -> Effect {
    match (msg, popup) {
        (Message::MoveDown, None) => Effect::SelectNext,
        (Message::MoveUp, None) => Effect::SelectPrevious,
        (Message::EnterSelectedDir, None) => Effect::OpenSelected,
        (Message::EnterPrevDir, None) => Effect::OpenPrevious,
        (
            Message::InputModeAction(InputAction::Send),
            Some(Popup::LoginForm { code_input, .. }),
        ) => Effect::SendForm(code_input),
        (Message::DownloadFile, _) => Effect::DownloadSelected,
        _ => Effect::Nothing,
    }
}

/// How a message changes the popup.
pub enum PopupChange {
    Keep,
    OpenConfig,
    Close,
    Type(char),
    Delete,
}

/// The change a message makes to the popup: the configuration opens only when no popup is
/// shown, typing reaches only the login form, deleting reaches whatever is shown.
pub open spec fn popup_change(msg: Message, popup: Option<Popup>) -> PopupChange {
    match msg {
        Message::ShowConfig => if popup is None {
            PopupChange::OpenConfig
        } else {
            PopupChange::Keep
        },
        Message::ClosePopup => PopupChange::Close,
        Message::InputModeAction(InputAction::InputChar(c)) => if popup matches Some(
            Popup::LoginForm { .. },
        ) {
            PopupChange::Type(c)
        } else {
            PopupChange::Keep
        },
        Message::InputModeAction(InputAction::DeleteChar) => PopupChange::Delete,
        _ => PopupChange::Keep,
    }
}

/// `after` is `before` changed by `change`.
pub open spec fn popup_changed(before: Option<Popup>, after: Option<Popup>, change: PopupChange) -> bool {
    match change {
        PopupChange::Keep => after == before,
        PopupChange::OpenConfig => after == Some(Popup::Config),
        PopupChange::Close => after is None,
        PopupChange::Type(c) => edited(before, after, |code: Seq<char>| code_after_input(code, c)),
        PopupChange::Delete => edited(before, after, |code: Seq<char>| code_after_delete(code)),
    }
}

/// Handles a message. Deleting from a login form whose code ends in a character of more
/// than one byte is left out: the code is cut at a byte position.
pub fn update(popup: Option<Popup>, msg: Message) -> (r: Step)
    requires
        msg == Message::InputModeAction(InputAction::DeleteChar) ==> deletable(popup),
    ensures
        r.next == (if msg is Exit {
            None
        } else {
            Some(Message::Continue)
        }),
        r.effect == effect_of(msg, popup),
        popup_changed(popup, r.popup, popup_change(msg, popup)),
{
    let is_none = popup.is_none();
    let is_login = matches!(popup, Some(Popup::LoginForm { .. }));
    match msg {
        Message::MoveDown if is_none => Step {
            popup,
            effect: Effect::SelectNext,
            next: Some(Message::Continue),
        },
        Message::MoveUp if is_none => Step {
            popup,
            effect: Effect::SelectPrevious,
            next: Some(Message::Continue),
        },
        Message::ShowConfig if is_none => Step {
            popup: Some(Popup::Config),
            effect: Effect::Nothing,
            next: Some(Message::Continue),
        },
        Message::EnterSelectedDir if is_none => Step {
            popup,
            effect: Effect::OpenSelected,
            next: Some(Message::Continue),
        },
        Message::EnterPrevDir if is_none => Step {
            popup,
            effect: Effect::OpenPrevious,
            next: Some(Message::Continue),
        },
        Message::Continue => Step { popup, effect: Effect::Nothing, next: Some(Message::Continue) },
        Message::Exit => Step { popup, effect: Effect::Nothing, next: None },
        Message::ClosePopup => Step {
            popup: None,
            effect: Effect::Nothing,
            next: Some(Message::Continue),
        },
        Message::InputModeAction(InputAction::InputChar(c)) if is_login => Step {
            popup: update_input(popup, c),
            effect: Effect::Nothing,
            next: Some(Message::Continue),
        },
        Message::InputModeAction(InputAction::DeleteChar) => Step {
            popup: remove_last_symbol(popup),
            effect: Effect::Nothing,
            next: Some(Message::Continue),
        },
        Message::InputModeAction(InputAction::Send) if is_login => {
            let code = match &popup {
                Some(Popup::LoginForm { code_input, .. }) => code_input.clone(),
                _ => String::new(),
            };
            Step { popup, effect: Effect::SendForm(code), next: Some(Message::Continue) }
        },
        Message::DownloadFile => Step {
            popup,
            effect: Effect::DownloadSelected,
            next: Some(Message::Continue),
        },
        _ => Step { popup, effect: Effect::Nothing, next: Some(Message::Continue) },
    }
}

/// While a popup is shown the panes stay put: no message moves the selection or changes
/// the directory.
pub proof fn lemma_popup_blocks_navigation(msg: Message, popup: Option<Popup>)
    requires
        popup is Some,
    ensures
        !(effect_of(msg, popup) is SelectNext),
        !(effect_of(msg, popup) is SelectPrevious),
        !(effect_of(msg, popup) is OpenSelected),
        !(effect_of(msg, popup) is OpenPrevious),
{
}

/// The selection once the caller has carried out `effect` on the current pane: the next
/// entry for `SelectNext`, the previous one for `SelectPrevious`, unchanged otherwise.
pub open spec fn selection_after(effect: Effect, selected: Option<usize>) -> Option<usize> {
    match effect {
        Effect::SelectNext => next_selection(selected),
        Effect::SelectPrevious => previous_selection(selected),
        _ => selected,
    }
}

/// Without a popup, moving up selects the entry just before the selected one, moving down
/// the entry just after it, and moving down then up comes back to where it was.
pub proof fn lemma_moves_without_popup(i: usize)
    requires
        0 < i < usize::MAX,
    ensures
        selection_after(effect_of(Message::MoveUp, None), Some(i)) == Some((i - 1) as usize),
        selection_after(effect_of(Message::MoveDown, None), Some(i)) == Some((i + 1) as usize),
        selection_after(
            effect_of(Message::MoveUp, None),
            selection_after(effect_of(Message::MoveDown, None), Some(i)),
        ) == Some(i),
        selection_after(
            effect_of(Message::MoveDown, None),
            selection_after(effect_of(Message::MoveUp, None), Some(i)),
        ) == Some(i),
{
}

}
