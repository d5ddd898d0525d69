//! A string model of filesystem paths, with the per-OS-family data that the
//! resolvers consume: directory separator, interpreter sub-path variants
//! inside an isolated environment, and the entry module of the backend.
//! Paths are plain strings; joining appends the family's separator and the
//! relative part.

use vstd::prelude::*;

verus! {

/// The host operating-system family, which fixes the separator and the
/// naming of an isolated environment's interpreter.
#[derive(Clone, Copy, PartialEq, Eq, Structural, Debug)]
pub enum OsFamily {
    Windows,
    Unix,
}

impl OsFamily {
    /// The family's directory separator.
    pub open spec fn sep_spec(self) -> Seq<char> {
        match self {
            OsFamily::Windows => "\\"@,
            OsFamily::Unix => "/"@,
        }
    }

    /// Interpreter sub-path inside the dot-named environment directory.
    pub open spec fn venv_dot_spec(self) -> Seq<char> {
        match self {
            OsFamily::Windows => ".venv\\Scripts\\python.exe"@,
            OsFamily::Unix => ".venv/bin/python"@,
        }
    }

    /// Interpreter sub-path inside the plainly named environment directory.
    pub open spec fn venv_plain_spec(self) -> Seq<char> {
        match self {
            OsFamily::Windows => "venv\\Scripts\\python.exe"@,
            OsFamily::Unix => "venv/bin/python"@,
        }
    }

    /// Backend entry module, relative to a project root.
    pub open spec fn entry_module_spec(self) -> Seq<char> {
        match self {
            OsFamily::Windows => "backend\\main.py"@,
            OsFamily::Unix => "backend/main.py"@,
        }
    }

    pub fn sep(self) -> (r: &'static str)
        ensures
            r@ == self.sep_spec(),
    {
        match self {
            OsFamily::Windows => "\\",
            OsFamily::Unix => "/",
        }
    }

    pub fn venv_dot(self) -> (r: &'static str)
        ensures
            r@ == self.venv_dot_spec(),
    {
        match self {
            OsFamily::Windows => ".venv\\Scripts\\python.exe",
            OsFamily::Unix => ".venv/bin/python",
        }
    }

    pub fn venv_plain(self) -> (r: &'static str)
        ensures
            r@ == self.venv_plain_spec(),
    {
        match self {
            OsFamily::Windows => "venv\\Scripts\\python.exe",
            OsFamily::Unix => "venv/bin/python",
        }
    }

    pub fn entry_module(self) -> (r: &'static str)
        ensures
            r@ == self.entry_module_spec(),
    {
        match self {
            OsFamily::Windows => "backend\\main.py",
            OsFamily::Unix => "backend/main.py",
        }
    }

    /// The separator is a single character, so no joined path is empty.
    pub proof fn lemma_sep_nonempty(self)
        ensures
            self.sep_spec().len() == 1,
    {
        reveal_strlit("\\");
        reveal_strlit("/");
    }
}

/// Meaning of joining `rel` onto `base`: the base, the family's separator,
/// then the relative part.
pub open spec fn join_spec(base: Seq<char>, rel: Seq<char>, os: OsFamily) -> Seq<char> {
    base + os.sep_spec() + rel
}

/// Append a relative path to a base path with the family's separator.
pub fn join(base: &str, rel: &str, os: OsFamily) -> (r: String)
    ensures
        r@ == join_spec(base@, rel@, os),
{
    let mut s = base.to_string();
    s.append(os.sep());
    s.append(rel);
    s
}

/// The path of the backend entry module under a candidate project root;
/// its presence is the primary validation of a root candidate.
pub fn entry_module_path(root: &str, os: OsFamily) -> (r: String)
    ensures
        r@ == join_spec(root@, os.entry_module_spec(), os),
{
    join(root, os.entry_module(), os)
}

/// The backend directory under a candidate project root; together with a
/// sibling project-marker file it is the secondary signal that validates
/// a candidate found by the upward walk.
pub fn backend_dir_path(root: &str, os: OsFamily) -> (r: String)
    ensures
        r@ == join_spec(root@, "backend"@, os),
{
    join(root, "backend", os)
}

} // verus!
