//! Which message a key press stands for.
use vstd::prelude::*;
use crate::update::{InputAction, Message, effect_of, selection_after};

verus! {

/// The keys the interface tells apart; every other key is `Other`.
#[derive(Debug, Clone, Copy, PartialEq, Eq, Structural)]
pub enum Key {
    Char(char),
    Esc,
    Backspace,
    Enter,
    Down,
    Up,
    Other,
}

/// The message of a key press. With a popup open, `q` and Esc close it and the other keys
/// edit the form; otherwise `q` and Esc quit, `j`/Down and `k`/Up move, `c` shows the
/// configuration. Anything else continues.
pub open spec fn key_message(popup_open: bool, key: Key) -> Message {
    if popup_open {
        match key {
            Key::Char('q') | Key::Esc => Message::ClosePopup,
            Key::Char(c) => Message::InputModeAction(InputAction::InputChar(c)),
            Key::Backspace => Message::InputModeAction(InputAction::DeleteChar),
            Key::Enter => Message::InputModeAction(InputAction::Send),
            _ => Message::Continue,
        }
    } else {
        match key {
            Key::Char('q') | Key::Esc => Message::Exit,
            Key::Char('j') | Key::Down => Message::MoveDown,
            Key::Char('k') | Key::Up => Message::MoveUp,
            Key::Char('c') => Message::ShowConfig,
            _ => Message::Continue,
        }
    }
}

/// The message of a key press (see `key_message`).
pub fn message_for_key(popup_open: bool, key: Key) -> (m: Message)
    ensures
        m == key_message(popup_open, key),
{
    if popup_open {
        match key {
            Key::Char('q') | Key::Esc => Message::ClosePopup,
            Key::Char(c) => Message::InputModeAction(InputAction::InputChar(c)),
            Key::Backspace => Message::InputModeAction(InputAction::DeleteChar),
            Key::Enter => Message::InputModeAction(InputAction::Send),
            _ => Message::Continue,
        }
    } else {
        match key {
            Key::Char('q') | Key::Esc => Message::Exit,
            Key::Char('j') | Key::Down => Message::MoveDown,
            Key::Char('k') | Key::Up => Message::MoveUp,
            Key::Char('c') => Message::ShowConfig,
            _ => Message::Continue,
        }
    }
}

/// While a popup is open no key quits the program, moves the selection or opens the
/// configuration.
pub proof fn lemma_popup_keys_stay_in_popup(key: Key)
    ensures
        !(key_message(true, key) is Exit),
        !(key_message(true, key) is MoveDown),
        !(key_message(true, key) is MoveUp),
        !(key_message(true, key) is ShowConfig),
{
}

/// With no popup open, a key asks to move up exactly when it is `k` or the Up arrow, and
/// to move down exactly when it is `j` or the Down arrow; such a key moves the selection
/// from an inner entry to the one just before, or just after.
pub proof fn lemma_move_keys(key: Key, i: usize)
    requires
        0 < i < usize::MAX,
    ensures
        (key_message(false, key) == Message::MoveUp) <==> (key == Key::Char('k') || key == Key::Up),
        (key_message(false, key) == Message::MoveDown) <==> (key == Key::Char('j') || key
            == Key::Down),
        (key == Key::Char('k') || key == Key::Up) ==> selection_after(
            effect_of(key_message(false, key), None),
            Some(i),
        ) == Some((i - 1) as usize),
        (key == Key::Char('j') || key == Key::Down) ==> selection_after(
            effect_of(key_message(false, key), None),
            Some(i),
        ) == Some((i + 1) as usize),
{
}

/// `q` and Esc leave: with no popup they quit the program, with a popup they close it,
/// and no other key does either. With no popup only `c` shows the configuration; with a
/// popup every other character is typed into it as it is.
pub proof fn lemma_leave_and_type_keys(key: Key, c: char)
    ensures
        (key_message(false, key) == Message::Exit) <==> (key == Key::Char('q') || key == Key::Esc),
        (key_message(true, key) == Message::ClosePopup) <==> (key == Key::Char('q') || key
            == Key::Esc),
        (key_message(false, key) == Message::ShowConfig) <==> key == Key::Char('c'),
        c != 'q' ==> key_message(true, Key::Char(c)) == Message::InputModeAction(
            InputAction::InputChar(c),
        ),
{
}

}
