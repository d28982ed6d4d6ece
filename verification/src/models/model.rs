//! The popup windows of the interface.
use vstd::prelude::*;

verus! {

/// A window drawn over the panes: the configuration, or the login form with the code typed
/// so far and the error of the last attempt.
#[derive(Debug)]
pub enum Popup {
    Config,
    LoginForm { code_input: String, error_message: Option<String> },
}

impl Clone for Popup {
    fn clone(&self) -> (r: Self)
        ensures
            r == *self,
    {
        match self {
            Popup::Config => Popup::Config,
            Popup::LoginForm { code_input, error_message } => Popup::LoginForm {
                code_input: code_input.clone(),
                error_message: match error_message {
                    Some(m) => Some(m.clone()),
                    None => None,
                },
            },
        }
    }
}

/// The popup shown at start: none when a token is stored, else an empty login form.
pub fn starting_popup(has_token: bool) -> (r: Option<Popup>)
    ensures
        has_token ==> r is None,
        !has_token ==> (r matches Some(Popup::LoginForm { code_input, error_message })
            && code_input@.len() == 0 && error_message is None),
{
    if has_token {
        None
    } else {
        Some(Popup::LoginForm { code_input: String::new(), error_message: None })
    }
}

}
