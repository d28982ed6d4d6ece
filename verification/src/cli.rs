//! Command-line arguments.
use vstd::prelude::*;

verus! {

/// YAD - simple Terminal UI for sync yandex disk with local directory
#[derive(Debug)]
pub struct Args {
    /// Path to config, default .config/yad/Config.toml
    pub conf: String,
}

}
