//! Small helpers on names.
use vstd::prelude::*;
use crate::error::AppError;
use crate::utils::path::{file_name, file_name_of};
use crate::utils::text::same_text;

verus! {

/// The name shown for a directory at `path`: `/` for the root, otherwise its final name.
pub open spec fn f_name_of(path: Seq<char>) -> Option<Seq<char>> {
    if path == "/"@ {
        Some("/"@)
    } else {
        file_name_of(path)
    }
}

/// The name of the file or directory at `path`; a path without a final name is refused
/// with `InvalidFileName("Can't read file name - <path>")`.
pub fn read_f_name(path: String) -> (r: Result<String, AppError>)
    ensures
        f_name_of(path@) matches Some(n) ==> (r matches Ok(x) && x@ == n),
        f_name_of(path@) is None ==> (r matches Err(AppError::InvalidFileName(m)) && m@
            == "Can't read file name - "@ + path@),
{
    if same_text(path.as_str(), "/") {
        Ok(String::from_str("/"))
    } else {
        match file_name(path.as_str()) {
            Some(n) => Ok(n),
            None => {
                proof {
                    reveal_strlit("Can't read file name");
                    reveal_strlit(" - ");
                    reveal_strlit("Can't read file name - ");
                    assert("Can't read file name"@ + " - "@ + path@ =~= "Can't read file name - "@
                        + path@);
                }
                Err(AppError::invalid_f_name("Can't read file name", path.as_str()))
            },
        }
    }
}

}
