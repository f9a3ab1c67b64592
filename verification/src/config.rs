use vstd::prelude::*;

verus! {

/// What the shell is started with: the names shown in the prompt, where the
/// archive lies, and where the log is to be written.
#[derive(Debug)]
pub struct Config {
    pub user: String,
    pub computer: String,
    pub zip_path: String,
    pub log_file: String,
}

} // verus!
