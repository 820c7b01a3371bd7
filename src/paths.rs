//! Where the command-line client keeps its files.
use vstd::prelude::*;
use std::path::PathBuf;

verus! {

/// `std::path::PathBuf`, which has no specification in vstd; opaque here.
#[verifier::external_type_specification]
#[verifier::external_body]
pub struct ExPathBuf(PathBuf);

/// Relies on `dirs::config_dir`: the user's configuration directory, when the
/// platform and the environment give one. Nothing is promised of its value.
#[verifier::external_body]
fn user_config_dir() -> Option<PathBuf> {
    dirs::config_dir()
}

/// Relies on `std::path::Path::join`: `base` with `name` adjoined. The
/// separator depends on the platform, so nothing is promised of the result.
#[verifier::external_body]
fn join_path(base: &PathBuf, name: &str) -> PathBuf {
    base.join(name)
}

/// The client could not find where to keep its files.
#[derive(Debug, PartialEq, Eq, Structural)]
pub enum NewPathsError {
    NotFound,
}

impl NewPathsError {
    pub fn message(&self) -> (r: String)
        ensures
            r@ == "Failed to find user config directory"@,
    {
        String::from_str("Failed to find user config directory")
    }
}

/// The client's directory and the files inside it.
pub struct Paths {
    base_path: PathBuf,
}

impl Paths {
    /// The directory that holds the client's files.
    pub closed spec fn base(&self) -> PathBuf {
        self.base_path
    }

    /// Paths under the given directory.
    pub fn from_base_path(base_path: PathBuf) -> (r: Paths)
        ensures
            r.base() == base_path,
    {
        Paths { base_path }
    }

    /// Paths under the client's directory inside `config_dir`, or `NotFound`
    /// when there is no configuration directory.
    pub fn from_config_dir(config_dir: Option<PathBuf>) -> (r: Result<Paths, NewPathsError>)
        ensures
            r is Err <==> config_dir is None,
            r is Err ==> r matches Err(NewPathsError::NotFound),
    {
        match config_dir {
            Some(dir) => Ok(Paths { base_path: join_path(&dir, "atlascli") }),
            None => Err(NewPathsError::NotFound),
        }
    }

    /// Paths under the client's directory inside the user's configuration
    /// directory. Fails with `NotFound` when the platform gives none.
    pub fn new() -> (r: Result<Paths, NewPathsError>)
        ensures
            r is Err ==> r matches Err(NewPathsError::NotFound),
    {
        Paths::from_config_dir(user_config_dir())
    }

    /// The directory that holds the client's files.
    pub fn base_path(&self) -> (r: &PathBuf)
        ensures
            *r == self.base(),
    {
        &self.base_path
    }

    /// The profile file, `config.toml` inside the client's directory.
    pub fn profile_path(&self) -> PathBuf {
        join_path(&self.base_path, "config.toml")
    }
}

} // verus!
