//! Paths that hang on a directory which the environment names.

use vstd::prelude::*;

verus! {

/// The path of `name` under the directory `dir`, as the standard library
/// joins paths on Unix. A `name` that starts at the root stands for
/// itself. Any other is put behind `dir`, with one `/` between the two
/// unless `dir` is empty or ends in one.
pub open spec fn joined_path(dir: Seq<char>, name: Seq<char>) -> Seq<char> {
    if name.len() > 0 && name[0] == '/' {
        name
    } else if dir.len() > 0 && dir.last() != '/' {
        dir + seq!['/'] + name
    } else {
        dir + name
    }
}

/// Joins `name` to the directory `dir` with `Path::join` of the standard
/// library, under which an absolute path replaces the directory and any
/// other is adjoined to it.
#[verifier::external_body]
pub(crate) fn join_path(dir: &str, name: &str) -> (r: String)
    ensures
        r@ == joined_path(dir@, name@),
{
    std::path::Path::new(dir).join(name).to_string_lossy().into_owned()
}

/// A path under a directory that a variable of the environment names.
#[derive(Debug)]
pub struct EnvPath {
    p: String,
}

impl EnvPath {
    /// The path as text.
    pub closed spec fn path(&self) -> Seq<char> {
        self.p@
    }

    /// The path of `join_path` under the directory `dir`, or the failure
    /// of reading the variable that names the directory.
    fn under<E>(dir: Result<String, E>, join_path: &'static str) -> (r: Result<EnvPath, E>)
        ensures
            match dir {
                Ok(base) => r matches Ok(path) && path.path() == joined_path(base@, join_path@),
                Err(e) => r matches Err(cause) && cause == e,
            },
    {
        match dir {
            Ok(base) => Ok(EnvPath { p: self::join_path(base.as_str(), join_path) }),
            Err(e) => Err(e),
        }
    }

    /// The path of `join_path` under the user's runtime directory, given
    /// what reading `XDG_RUNTIME_DIR` gave.
    pub fn xdg_runtime_dir<E>(var: Result<String, E>, join_path: &'static str) -> (r: Result<
        EnvPath,
        E,
    >)
        ensures
            match var {
                Ok(base) => r matches Ok(path) && path.path() == joined_path(base@, join_path@),
                Err(e) => r matches Err(cause) && cause == e,
            },
    {
        EnvPath::under(var, join_path)
    }

    /// The path of `join_path` under the user's home directory, given
    /// what reading `HOME` gave.
    pub fn home<E>(var: Result<String, E>, join_path: &'static str) -> (r: Result<EnvPath, E>)
        ensures
            match var {
                Ok(base) => r matches Ok(path) && path.path() == joined_path(base@, join_path@),
                Err(e) => r matches Err(cause) && cause == e,
            },
    {
        EnvPath::under(var, join_path)
    }

    /// The path as text.
    pub fn as_str(&self) -> (r: &str)
        ensures
            r@ == self.path(),
    {
        self.p.as_str()
    }
}

/// The place of the state database under the home directory.
pub open spec fn state_db_path() -> Seq<char> {
    ".local/state/itch/state.db"@
}

/// The path of the state database, given what reading `HOME` gave.
pub fn state_db<E>(home: Result<String, E>) -> (r: Result<EnvPath, E>)
    ensures
        match home {
            Ok(base) => r matches Ok(path) && path.path() == joined_path(base@, state_db_path()),
            Err(e) => r matches Err(cause) && cause == e,
        },
{
    EnvPath::home(home, ".local/state/itch/state.db")
}

/// The path of the wallpaper `name` in the directory `backgrounds` of the
/// user's home, or nothing when the user has no home directory.
pub fn canonicalize(home: Option<&str>, name: &str) -> (r: Option<String>)
    ensures
        match home {
            Some(base) => r matches Some(path) && path@ == joined_path(
                joined_path(base@, "backgrounds"@),
                name@,
            ),
            None => r is None,
        },
{
    match home {
        Some(base) => {
            let backgrounds = join_path(base, "backgrounds");
            Some(join_path(backgrounds.as_str(), name))
        },
        None => None,
    }
}

} // verus!
