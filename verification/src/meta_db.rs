//! What the application remembers between runs.
use vstd::prelude::*;

verus! {

/// The stored OAuth token, if the user has logged in.
#[derive(Debug, Clone)]
pub struct Meta {
    pub api_token: Option<String>,
}

}
