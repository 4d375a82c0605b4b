//! The temporary workspace.
use vstd::prelude::*;

use crate::path::{joined, joined_path, Host, System};

verus! {

/// What the name of a workspace's directory begins with.
pub const WORKSPACE_PREFIX: &'static str = ".ab-av1-";

/// What becomes of the directory of a workspace.
#[derive(Debug, Clone, Copy, PartialEq, Eq, Structural)]
pub enum Disposal {
    Keep,
    Remove,
}

/// A directory for what is needed for a while.
#[derive(Debug, Clone, PartialEq, Eq)]
pub struct Workspace {
    dir: String,
    keep: bool,
}

impl Workspace {
    /// The path of the directory.
    pub closed spec fn dir(self) -> Seq<char> {
        self.dir@
    }

    /// The directory is to be kept.
    pub closed spec fn keep(self) -> bool {
        self.keep
    }

    /// The directory that a workspace is made in: the one that was asked for,
    /// or else the current one.
    pub fn parent(parent: Option<String>, current_dir: &str) -> (r: String)
        ensures
            r@ == match parent {
                Some(parent) => parent@,
                None => current_dir@,
            },
    {
        match parent {
            Some(parent) => parent,
            None => current_dir.to_owned(),
        }
    }

    /// The error that the directory could not be made.
    pub fn creation_error(parent: &str) -> (r: String)
        ensures
            r@ == "failed to create temporary workspace in "@ + parent@,
    {
        "failed to create temporary workspace in ".to_owned().concat(parent)
    }

    /// The workspace in a directory that was made for it.
    pub fn new(dir: String, keep: bool) -> (r: Workspace)
        ensures
            r.dir() == dir@,
            r.keep() == keep,
    {
        Workspace { dir, keep }
    }

    /// The path of the directory.
    pub fn path(&self) -> (r: &str)
        ensures
            r@ == self.dir(),
    {
        self.dir.as_str()
    }

    /// The path of a file in the directory.
    pub fn join(&self, path: &str) -> (r: String)
        ensures
            exists|system: System| #[trigger] joined(system, self.dir(), path@, r@),
    {
        let host = Host::here();
        let r = joined_path(host, self.dir.as_str(), path);
        assert(joined(host.system(), self.dir(), path@, r@));
        r
    }

    /// What becomes of the directory at the end: it is removed unless it is to
    /// be kept.
    pub fn disposal(&self) -> (r: Disposal)
        ensures
            r == if self.keep() {
                Disposal::Keep
            } else {
                Disposal::Remove
            },
    {
        if self.keep {
            Disposal::Keep
        } else {
            Disposal::Remove
        }
    }
}

} // verus!
