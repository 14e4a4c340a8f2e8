//! User configuration of the command-line tool.

use vstd::prelude::*;

verus! {

/// The tool's configuration file.
#[derive(Debug, Clone)]
pub struct Config {
    pub github: GithubConfig,
}

/// Where the user's projects are hosted.
#[derive(Debug, Clone)]
pub struct GithubConfig {
    pub organization: String,
}

impl Config {
    /// The text a new configuration file starts from: nothing.
    pub fn template() -> (text: String)
        ensures
            text@ == Seq::<char>::empty(),
    {
        String::new()
    }
}

} // verus!
