//! What the screen shows, apart from drawing it.
use vstd::prelude::*;
use crate::models::model::Popup;
use crate::utils::text::push_char;

verus! {

/// The popup to draw.
#[derive(Debug)]
pub enum PopupView {
    ConfigText,
    LoginForm { code_input: String, error_message: Option<String> },
    Nothing,
    Invalid,
}

/// The popup to draw: the configuration only for a logged-in user, the login form (with
/// the typed code and the last error) only for one who is not, nothing for a logged-in
/// user without popup; any other combination is an invalid state.
pub fn popup_view(is_auth: bool, popup: &Option<Popup>) -> (r: PopupView)
    ensures
        match (is_auth, *popup) {
            (true, Some(Popup::Config)) => r is ConfigText,
            (false, Some(Popup::LoginForm { code_input, error_message })) => r matches PopupView::LoginForm {
                code_input: c,
                error_message: e,
            } && c == code_input && e == error_message,
            (true, None) => r is Nothing,
            _ => r is Invalid,
        },
{
    match popup {
        Some(Popup::Config) if is_auth => PopupView::ConfigText,
        Some(Popup::LoginForm { code_input, error_message }) if !is_auth => PopupView::LoginForm {
            code_input: code_input.clone(),
            error_message: match error_message {
                Some(m) => Some(m.clone()),
                None => None,
            },
        },
        None if is_auth => PopupView::Nothing,
        _ => PopupView::Invalid,
    }
}

/// `code` with a `-` between each two characters: `123` is shown `1-2-3`.
pub open spec fn dashed(code: Seq<char>) -> Seq<char>
    decreases code.len(),
{
    if code.len() <= 1 {
        code
    } else {
        dashed(code.drop_last()) + seq!['-', code.last()]
    }
}

/// The typed code as the login form shows it (see `dashed`).
pub fn code_view(code_input: &str) -> (r: String)
    ensures
        r@ == dashed(code_input@),
{
    let n = code_input.unicode_len();
    let mut out = String::new();
    let mut i: usize = 0;
    assert(code_input@.take(0) =~= Seq::<char>::empty());
    while i < n
        invariant
            i <= n,
            n == code_input@.len(),
            out@ == dashed(code_input@.take(i as int)),
        decreases n - i,
    {
        let c = code_input.get_char(i);
        let ghost t = code_input@.take(i + 1);
        assert(t.drop_last() =~= code_input@.take(i as int));
        if i > 0 {
            push_char(&mut out, '-');
            push_char(&mut out, c);
            assert(out@ =~= dashed(t));
        } else {
            push_char(&mut out, c);
            assert(out@ =~= t);
        }
        i = i + 1;
    }
    assert(code_input@.take(n as int) =~= code_input@);
    out
}

/// The shown code holds the typed characters at even positions and dashes between them.
pub proof fn lemma_dashed_shape(code: Seq<char>)
    requires
        code.len() > 0,
    ensures
        dashed(code).len() == 2 * code.len() - 1,
        forall|i: int| 0 <= i < code.len() ==> #[trigger] dashed(code)[2 * i] == code[i],
        forall|i: int| 0 <= i < code.len() - 1 ==> #[trigger] dashed(code)[2 * i + 1] == '-',
    decreases code.len(),
{
    if code.len() > 1 {
        let t = code.drop_last();
        lemma_dashed_shape(t);
        let d = dashed(code);
        assert(d == dashed(t) + seq!['-', code.last()]);
        assert forall|i: int| 0 <= i < code.len() implies #[trigger] d[2 * i] == code[i] by {
            if i < code.len() - 1 {
                assert(d[2 * i] == dashed(t)[2 * i]);
                assert(t[i] == code[i]);
            }
        }
        assert forall|i: int| 0 <= i < code.len() - 1 implies #[trigger] d[2 * i + 1] == '-' by {
            if i < code.len() - 2 {
                assert(d[2 * i + 1] == dashed(t)[2 * i + 1]);
            }
        }
    }
}

}
