//! Errors of the file manager.
use vstd::prelude::*;
use crate::disk_client::{DiskError, disk_error_debug, disk_error_message};
use crate::utils::text::{debug_quoted, push_str, quoted, starts_with};

verus! {

#[verifier::external_type_specification]
#[verifier::external_body]
pub struct ExIoError(std::io::Error);

#[verifier::external_type_specification]
#[verifier::external_body]
pub struct ExJammError(jammdb::Error);

/// Everything that can go wrong while browsing, syncing or storing the login.
/// `ConvertOsStringToStringErr` holds the offending name, its invalid bytes replaced.
#[derive(Debug)]
pub enum AppError {
    DiskErrors(DiskError),
    FSErrors(std::io::Error),
    InvalidFileName(String),
    InvalidPathToDelete(String),
    ConvertOsStringToStringErr(String),
    ConvertPathBufToStr,
    MissingSelectedElelement,
    MultipleErrors(Vec<AppError>),
    LogicalError(String),
    DBError(jammdb::Error),
}

/// Wrapper around the `Display` formatting of an I/O error. Nothing is stated of the
/// text, which the operating system's error description decides.
#[verifier::external_body]
fn io_error_text(e: &std::io::Error) -> String {
    format!("{}", e)
}

/// Wrapper around the `Display` formatting of a `jammdb` error. Nothing is stated of the
/// text: for I/O failures inside the database it holds the operating system's message.
#[verifier::external_body]
fn db_error_text(e: &jammdb::Error) -> String {
    format!("{}", e)
}

/// Wrapper around the `Debug` formatting of an I/O error. Nothing is stated of the
/// text, which holds the operating system's description of the error.
#[verifier::external_body]
fn io_error_debug_text(e: &std::io::Error) -> String {
    format!("{:?}", e)
}

/// Wrapper around the `Debug` formatting of a `jammdb` error. Nothing is stated of the
/// text: for I/O failures inside the database it holds the operating system's text.
#[verifier::external_body]
fn db_error_debug_text(e: &jammdb::Error) -> String {
    format!("{:?}", e)
}

/// `t` is `open`, then `inner`, then `close`.
pub open spec fn wrapped(t: Seq<char>, open: Seq<char>, inner: Seq<char>, close: Seq<char>) -> bool {
    t == open + inner + close
}

/// `t` is the text `format!("{:?}", e)` writes for `e`: the variant's name, followed by
/// its field's debug text in brackets where it has one. Of an I/O or database error
/// inside, only the surrounding text is fixed.
pub open spec fn error_debug(e: AppError, t: Seq<char>) -> bool
    decreases e,
{
    match e {
        AppError::DiskErrors(d) => t == "DiskErrors("@ + disk_error_debug(d) + ")"@,
        AppError::FSErrors(_) => exists|x: Seq<char>| #[trigger] wrapped(t, "FSErrors("@, x, ")"@),
        AppError::InvalidFileName(s) => t == "InvalidFileName("@ + debug_quoted(s@) + ")"@,
        AppError::InvalidPathToDelete(s) => t == "InvalidPathToDelete("@ + debug_quoted(s@)
            + ")"@,
        AppError::ConvertOsStringToStringErr(s) => t == "ConvertOsStringToStringErr("@
            + debug_quoted(s@) + ")"@,
        AppError::ConvertPathBufToStr => t == "ConvertPathBufToStr"@,
        AppError::MissingSelectedElelement => t == "MissingSelectedElelement"@,
        AppError::MultipleErrors(v) => exists|x: Seq<char>|
            #[trigger] wrapped(t, "MultipleErrors(["@, x, "])"@) && error_items_debug(v@, x),
        AppError::LogicalError(s) => t == "LogicalError("@ + debug_quoted(s@) + ")"@,
        AppError::DBError(_) => exists|x: Seq<char>| #[trigger] wrapped(t, "DBError("@, x, ")"@),
    }
}

/// `t` is the debug texts of the errors of `v`, in order, separated by `, `.
pub open spec fn error_items_debug(v: Seq<AppError>, t: Seq<char>) -> bool
    decreases v,
{
    if v.len() == 0 {
        t == Seq::<char>::empty()
    } else if v.len() == 1 {
        error_debug(v[0], t)
    } else {
        exists|a: Seq<char>, b: Seq<char>|
            #[trigger] wrapped(t, a, ", "@, b) && error_items_debug(v.drop_last(), a)
                && error_debug(v.last(), b)
    }
}

/// `t` is the text `format!("{:?}", v)` writes for a list of errors: `[`, the items
/// separated by `, `, and `]`.
pub open spec fn error_list_debug(v: Seq<AppError>, t: Seq<char>) -> bool {
    exists|x: Seq<char>| #[trigger] wrapped(t, "["@, x, "]"@) && error_items_debug(v, x)
}

/// The kinds of error whose message refers to itself and so cannot be written.
pub open spec fn self_describing(e: AppError) -> bool {
    e is ConvertPathBufToStr || e is MissingSelectedElelement
}

fn prefixed(prefix: &str, rest: String) -> (r: String)
    ensures
        r@ == prefix@ + rest@,
        starts_with(r@, prefix@),
{
    let mut out = String::from_str(prefix);
    push_str(&mut out, rest.as_str());
    assert(out@.subrange(0, prefix@.len() as int) =~= prefix@);
    out
}

impl AppError {
    /// A bad file name: `<err_message> - <f_name>`.
    pub fn invalid_f_name(err_message: &str, f_name: &str) -> (r: AppError)
        ensures
            r matches AppError::InvalidFileName(m) && m@ == err_message@ + " - "@ + f_name@,
    {
        let mut m = String::from_str(err_message);
        push_str(&mut m, " - ");
        push_str(&mut m, f_name);
        AppError::InvalidFileName(m)
    }

    /// The text shown for the error. The two kinds whose message names the error itself
    /// would never finish writing, and are left out.
    pub fn message(&self) -> (r: String)
        requires
            !self_describing(*self),
        ensures
            *self matches AppError::DiskErrors(d) ==> r@ == disk_error_message(d),
            *self matches AppError::InvalidFileName(s) ==> r@ == s@,
            *self matches AppError::InvalidPathToDelete(s) ==> r@ == s@,
            *self matches AppError::ConvertOsStringToStringErr(s) ==> r@
                == "Convert os string to string error "@ + debug_quoted(s@),
            *self matches AppError::LogicalError(s) ==> r@ == "Logical error: "@ + s@,
            *self matches AppError::MultipleErrors(v) ==> exists|x: Seq<char>|
                #[trigger] error_list_debug(v@, x) && r@ == "Multiple app errors: "@ + x,
            *self is DBError ==> starts_with(r@, "DB error: "@),
    {
        match self {
            AppError::DiskErrors(d) => d.message(),
            AppError::FSErrors(e) => io_error_text(e),
            AppError::InvalidFileName(s) => s.clone(),
            AppError::InvalidPathToDelete(s) => s.clone(),
            AppError::ConvertOsStringToStringErr(s) => prefixed(
                "Convert os string to string error ",
                quoted(s.as_str()),
            ),
            AppError::MultipleErrors(errors) => prefixed(
                "Multiple app errors: ",
                errors_list_text(errors),
            ),
            AppError::LogicalError(s) => prefixed("Logical error: ", s.clone()),
            AppError::DBError(e) => prefixed("DB error: ", db_error_text(e)),
            AppError::ConvertPathBufToStr => String::new(),
            AppError::MissingSelectedElelement => String::new(),
        }
    }
}


/// Wraps `inner` between `open` and `close`.
fn wrap(open: &str, inner: String, close: &str) -> (r: String)
    ensures
        wrapped(r@, open@, inner@, close@),
{
    let mut out = String::from_str(open);
    push_str(&mut out, inner.as_str());
    push_str(&mut out, close);
    out
}

/// The text `format!("{:?}", errors)` writes for a list of errors (see `error_list_debug`).
pub fn errors_list_text(errors: &Vec<AppError>) -> (r: String)
    ensures
        error_list_debug(errors@, r@),
    decreases errors,
{
    let mut items = String::new();
    let mut i: usize = 0;
    while i < errors.len()
        invariant
            i <= errors.len(),
            error_items_debug(errors@.take(i as int), items@),
        decreases errors.len() - i,
    {
        let t = errors[i].debug_text();
        let ghost before = items@;
        let ghost upto = errors@.take(i + 1);
        if i == 0 {
            items = t;
            assert(upto[0] == errors@[0]);
        } else {
            push_str(&mut items, ", ");
            push_str(&mut items, t.as_str());
            assert(upto.drop_last() =~= errors@.take(i as int));
            assert(upto.last() == errors@[i as int]);
            assert(wrapped(items@, before, ", "@, t@));
        }
        i += 1;
    }
    assert(errors@.take(errors.len() as int) =~= errors@);
    wrap("[", items, "]")
}

impl AppError {
    /// The text `format!("{:?}", e)` writes for the error (see `error_debug`).
    pub fn debug_text(&self) -> (r: String)
        ensures
            error_debug(*self, r@),
        decreases self,
    {
        match self {
            AppError::DiskErrors(d) => wrap("DiskErrors(", d.debug_text(), ")"),
            AppError::FSErrors(e) => wrap("FSErrors(", io_error_debug_text(e), ")"),
            AppError::InvalidFileName(s) => wrap("InvalidFileName(", quoted(s.as_str()), ")"),
            AppError::InvalidPathToDelete(s) => wrap(
                "InvalidPathToDelete(",
                quoted(s.as_str()),
                ")",
            ),
            AppError::ConvertOsStringToStringErr(s) => wrap(
                "ConvertOsStringToStringErr(",
                quoted(s.as_str()),
                ")",
            ),
            AppError::ConvertPathBufToStr => String::from_str("ConvertPathBufToStr"),
            AppError::MissingSelectedElelement => String::from_str("MissingSelectedElelement"),
            AppError::MultipleErrors(errors) => {
                let list = errors_list_text(errors);
                let ghost l = list@;
                let r = wrap("MultipleErrors(", list, ")");
                proof {
                    let x = choose|x: Seq<char>|
                        #[trigger] wrapped(l, "["@, x, "]"@) && error_items_debug(errors@, x);
                    assert(r@ =~= "MultipleErrors(["@ + x + "])"@) by {
                        reveal_strlit("MultipleErrors(");
                        reveal_strlit("MultipleErrors([");
                        reveal_strlit("[");
                        reveal_strlit("]");
                        reveal_strlit(")");
                        reveal_strlit("])");
                    }
                    assert(wrapped(r@, "MultipleErrors(["@, x, "])"@));
                }
                r
            },
            AppError::LogicalError(s) => wrap("LogicalError(", quoted(s.as_str()), ")"),
            AppError::DBError(e) => wrap("DBError(", db_error_debug_text(e), ")"),
        }
    }
}

}
