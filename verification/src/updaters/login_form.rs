//! Editing the authorization code typed into the login form.
use vstd::prelude::*;
use vstd::utf8::encode_utf8;
use crate::models::model::Popup;
use crate::utils::text::{push_char, push_str};

verus! {

/// The most bytes the typed code may reach by typing.
pub open spec fn login_input_max_digits() -> nat {
    999
}

/// The form accepts decimal digits only.
pub open spec fn is_code_digit(c: char) -> bool {
    '0' <= c && c <= '9'
}

/// The code after typing `c`: the digit is appended while the code is shorter than the
/// limit in bytes; anything else leaves it as it was.
pub open spec fn code_after_input(code: Seq<char>, c: char) -> Seq<char> {
    if is_code_digit(c) && (encode_utf8(code).len() as usize) < login_input_max_digits() {
        code.push(c)
    } else {
        code
    }
}

/// The code after deleting: its last character is dropped, if there is one.
pub open spec fn code_after_delete(code: Seq<char>) -> Seq<char> {
    if code.len() > 0 {
        code.drop_last()
    } else {
        code
    }
}

/// The form's code may lose its last character only if that character takes one byte:
/// the code is cut at a byte position.
pub open spec fn deletable(popup: Option<Popup>) -> bool {
    match popup {
        Some(Popup::LoginForm { code_input, .. }) => code_input@.len() > 0 ==> (
        code_input@.last() as int) < 0x80,
        _ => true,
    }
}

/// The popup after `edit` of a login form's code; the form's error is cleared. Any other
/// popup, or none, is kept as it is.
pub open spec fn edited(popup: Option<Popup>, r: Option<Popup>, edit: spec_fn(Seq<char>) -> Seq<char>) -> bool {
    match popup {
        None => r is None,
        Some(Popup::Config) => r == Some(Popup::Config),
        Some(Popup::LoginForm { code_input, .. }) => r matches Some(
            Popup::LoginForm { code_input: c, error_message: e },
        ) && e is None && c@ == edit(code_input@),
    }
}

/// Applies `mutator` to the login form's code when `cond` accepts the code, and clears the
/// form's error. Any other popup, or none, comes back as it went in whatever the two
/// closures are: neither is called, as nothing is asked of them then.
pub fn update_form(
    popup: Option<Popup>,
    cond: impl Fn(String) -> bool,
    mutator: impl Fn(String) -> String,
) -> (r: Option<Popup>)
    requires
        popup matches Some(Popup::LoginForm { code_input, .. }) ==> cond.requires((code_input,))
            && (forall|b: bool| #[trigger] cond.ensures((code_input,), b) && b ==> mutator.requires(
            (code_input,),
        )),
    ensures
        popup is None ==> r is None,
        popup == Some(Popup::Config) ==> r == Some(Popup::Config),
        popup matches Some(Popup::LoginForm { code_input, .. }) ==> (r matches Some(
            Popup::LoginForm { code_input: c, error_message: e },
        ) && e is None && exists|b: bool| #[trigger]
            cond.ensures((code_input,), b) && (b ==> mutator.ensures((code_input,), c)) && (!b
                ==> c == code_input)),
{
    match popup {
        None => None,
        Some(Popup::Config) => Some(Popup::Config),
        Some(Popup::LoginForm { code_input, error_message: _ }) => {
            let is_valid_input = cond(code_input.clone());
            if is_valid_input {
                Some(Popup::LoginForm { code_input: mutator(code_input), error_message: None })
            } else {
                Some(Popup::LoginForm { code_input, error_message: None })
            }
        },
    }
}

/// Types `code_number` into the login form.
pub fn update_input(popup: Option<Popup>, code_number: char) -> (r: Option<Popup>)
    ensures
        edited(popup, r, |code: Seq<char>| code_after_input(code, code_number)),
{
    let cond = |input: String| -> (ok: bool)
        ensures
            ok == (is_code_digit(code_number) && (encode_utf8(input@).len() as usize)
                < login_input_max_digits()),
        { '0' <= code_number && code_number <= '9' && input.as_str().len() < 999 };
    let mutator = |input: String| -> (longer: String)
        ensures
            longer@ == input@.push(code_number),
        {
            let mut longer = input;
            push_char(&mut longer, code_number);
            longer
        };
    update_form(popup, cond, mutator)
}

/// Deletes the last character of the login form's code.
pub fn remove_last_symbol(popup: Option<Popup>) -> (r: Option<Popup>)
    requires
        deletable(popup),
    ensures
        edited(popup, r, |code: Seq<char>| code_after_delete(code)),
{
    let cond = |input: String| -> (ok: bool)
        ensures
            ok == (input@.len() > 0),
        { input.as_str().unicode_len() > 0 };
    let mutator = |input: String| -> (shorter: String)
        requires
            input@.len() > 0,
        ensures
            shorter@ == input@.drop_last(),
        {
            let n = input.as_str().unicode_len();
            let shorter = String::from_str(input.as_str().substring_char(0, n - 1));
            assert(shorter@ =~= input@.drop_last());
            shorter
        };
    update_form(popup, cond, mutator)
}

/// How a login attempt ended: the service refused the code (with its explanation), the
/// token could not be stored (with why), or the token was stored.
#[derive(Debug)]
pub enum LoginOutcome {
    Rejected(String),
    StoreFailed(String),
    Stored,
}

/// The popup after a login attempt with `code`: a refused code stays in the form with the
/// explanation; a storage failure clears the form and reports
/// `Auth token store error - <why>`; a stored token closes the form.
pub fn popup_after_login(code: String, outcome: LoginOutcome) -> (r: Option<Popup>)
    ensures
        outcome matches LoginOutcome::Rejected(m) ==> r == Some(
            Popup::LoginForm { code_input: code, error_message: Some(m) },
        ),
        outcome matches LoginOutcome::StoreFailed(why) ==> (r matches Some(
            Popup::LoginForm { code_input: c, error_message: Some(e) },
        ) && c@.len() == 0 && e@ == "Auth token store error - "@ + why@),
        outcome is Stored ==> r is None,
{
    match outcome {
        LoginOutcome::Rejected(m) => Some(Popup::LoginForm { code_input: code, error_message: Some(m) }),
        LoginOutcome::StoreFailed(why) => {
            let mut e = String::from_str("Auth token store error - ");
            push_str(&mut e, why.as_str());
            Some(Popup::LoginForm { code_input: String::new(), error_message: Some(e) })
        },
        LoginOutcome::Stored => None,
    }
}

/// Deleting right after typing a digit gives back the code as it was, as long as the code
/// was short enough for the digit to be taken.
pub proof fn lemma_type_then_delete(code: Seq<char>, c: char)
    requires
        is_code_digit(c),
        (encode_utf8(code).len() as usize) < login_input_max_digits(),
    ensures
        code_after_delete(code_after_input(code, c)) == code,
{
    assert(code.push(c).drop_last() =~= code);
}

/// Typing or deleting while no popup, or the configuration popup, is open changes
/// nothing: whatever the edit, the popup that comes out is the one that went in.
pub proof fn lemma_other_popups_untouched(
    popup: Option<Popup>,
    r: Option<Popup>,
    edit: spec_fn(Seq<char>) -> Seq<char>,
)
    requires
        popup is None || popup == Some(Popup::Config),
        edited(popup, r, edit),
    ensures
        r == popup,
{
}

/// Typing anything but a digit leaves the code as it was.
pub proof fn lemma_non_digit_ignored(code: Seq<char>, c: char)
    requires
        !is_code_digit(c),
    ensures
        code_after_input(code, c) == code,
{
}

}
