//! Service configuration and where it is kept.
use vstd::prelude::*;

verus! {

/// Settings that survive restarts.
#[derive(Debug, Clone)]
pub struct Config {
    /// Bearer token of the administrator; empty until the first setup.
    pub admin_token: String,
}

impl Default for Config {
    fn default() -> (c: Config)
        ensures
            c.admin_token@ == Seq::<char>::empty(),
    {
        Config { admin_token: String::new() }
    }
}

/// What `Path::join` gives for a base path and a relative part: a function of
/// the two alone (the part appended after a separator; an absolute part
/// replaces the base).
pub uninterp spec fn path_joined(base: std::path::PathBuf, part: Seq<char>) -> std::path::PathBuf;

/// Calls `std::path::Path::join`; claims that the result is the named join of
/// the base and the part.
#[verifier::external_body]
fn path_join(base: &std::path::PathBuf, part: &str) -> (p: std::path::PathBuf)
    ensures
        p == path_joined(*base, part@),
{
    base.join(part)
}

/// The file that holds the configuration, `config.json` in the data directory.
pub fn config_path(data_dir: &std::path::PathBuf) -> (p: std::path::PathBuf)
    ensures
        p == path_joined(*data_dir, "config.json"@),
{
    path_join(data_dir, "config.json")
}

} // verus!
