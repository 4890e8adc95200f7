//! What the file-system operations of a shell come to, from the outcomes of
//! the operating-system calls, and how a directory tree is removed.
use vstd::prelude::*;
use crate::error::{Error, ErrorView, IoError};
use crate::path::{path_file_name, path_join, path_parent, sort_paths, sorted};
use crate::shell::{Shell, copy_destination_of};
use crate::text::strings_view;

verus! {

impl Shell {
    /// Reading a file as text: its contents, or [`ErrorView::ReadFile`]
    /// naming `path` as the caller gave it.
    pub fn finish_read_file(&self, path: &str, read: Result<String, IoError>) -> (r: Result<
        String,
        Error,
    >)
        ensures
            match read {
                Ok(t) => r matches Ok(x) && x@ == t@,
                Err(e) => r matches Err(err) && err@ == (ErrorView::ReadFile { err: e@, path: path@ }),
            },
    {
        match read {
            Ok(t) => Ok(t),
            Err(e) => Err(Error::new_read_file(e, String::from_str(path))),
        }
    }

    /// Reading a file as bytes: its contents, or [`ErrorView::ReadFile`]
    /// naming `path` as the caller gave it.
    pub fn finish_read_binary_file(&self, path: &str, read: Result<Vec<u8>, IoError>) -> (r: Result<
        Vec<u8>,
        Error,
    >)
        ensures
            match read {
                Ok(b) => r matches Ok(x) && x@ == b@,
                Err(e) => r matches Err(err) && err@ == (ErrorView::ReadFile { err: e@, path: path@ }),
            },
    {
        match read {
            Ok(b) => Ok(b),
            Err(e) => Err(Error::new_read_file(e, String::from_str(path))),
        }
    }

    /// Listing the directory at `path`: the entries, sorted, or
    /// [`ErrorView::ReadDir`] naming the directory read against the working
    /// directory.
    pub fn finish_read_dir(&self, path: &str, listed: Result<Vec<String>, IoError>) -> (r: Result<
        Vec<String>,
        Error,
    >)
        ensures
            match listed {
                Ok(v) => r matches Ok(x) && x@.to_multiset() == v@.to_multiset() && sorted(
                    strings_view(x@),
                ),
                Err(e) => r matches Err(err) && err@ == (ErrorView::ReadDir {
                    err: e@,
                    path: path_join(self@.cwd, path@),
                }),
            },
    {
        match listed {
            Ok(v) => Ok(sort_paths(v)),
            Err(e) => Err(Error::new_read_dir(e, self.path(path))),
        }
    }

    /// Whether writing to `path` goes on after its parent directory was
    /// created (`created`, which is not looked at when the path has no
    /// parent): yes, or [`ErrorView::CreateDir`] naming that directory.
    pub fn finish_write_parent(&self, path: &str, created: Result<(), IoError>) -> (r: Result<
        (),
        Error,
    >)
        ensures
            match path_parent(path_join(self@.cwd, path@)) {
                None => r is Ok,
                Some(d) => match created {
                    Ok(()) => r is Ok,
                    Err(e) => r matches Err(err) && err@ == (ErrorView::CreateDir {
                        err: e@,
                        path: path_join(self@.cwd, d),
                    }),
                },
            },
    {
        let (_, dir) = self.write_file_paths(path);
        match dir {
            None => Ok(()),
            Some(d) => match created {
                Ok(()) => Ok(()),
                Err(e) => Err(Error::new_create_dir(e, d)),
            },
        }
    }

    /// Writing the file at `path`: done, or [`ErrorView::WriteFile`] naming
    /// it read against the working directory.
    pub fn finish_write_file(&self, path: &str, written: Result<(), IoError>) -> (r: Result<(), Error>)
        ensures
            match written {
                Ok(()) => r is Ok,
                Err(e) => r matches Err(err) && err@ == (ErrorView::WriteFile {
                    err: e@,
                    path: path_join(self@.cwd, path@),
                }),
            },
    {
        match written {
            Ok(()) => Ok(()),
            Err(e) => Err(Error::new_write_file(e, self.path(path))),
        }
    }

    /// Creating the directory at `path` and its parents: its path read
    /// against the working directory, or [`ErrorView::CreateDir`] naming it.
    pub fn finish_create_dir(&self, path: &str, created: Result<(), IoError>) -> (r: Result<
        String,
        Error,
    >)
        ensures
            match created {
                Ok(()) => r matches Ok(x) && x@ == path_join(self@.cwd, path@),
                Err(e) => r matches Err(err) && err@ == (ErrorView::CreateDir {
                    err: e@,
                    path: path_join(self@.cwd, path@),
                }),
            },
    {
        let p = self.path(path);
        match created {
            Ok(()) => Ok(p),
            Err(e) => Err(Error::new_create_dir(e, p)),
        }
    }

    /// Copying `src` to `dst` (`dst_is_dir` as for
    /// [`Shell::copy_file_paths`]): done, or [`ErrorView::CopyFile`] naming
    /// the two paths that [`Shell::copy_file_paths`] gives.
    pub fn finish_copy_file(
        &self,
        src: &str,
        dst: &str,
        dst_is_dir: bool,
        copied: Result<(), IoError>,
    ) -> (r: Result<(), Error>)
        ensures
            match copied {
                Ok(()) => r is Ok,
                Err(e) => r matches Err(err) && err@ == (ErrorView::CopyFile {
                    err: e@,
                    src: path_join(self@.cwd, src@),
                    dst: copy_destination_of(
                        path_join(self@.cwd, dst@),
                        dst_is_dir,
                        path_file_name(path_join(self@.cwd, src@)),
                    ),
                }),
            },
    {
        match copied {
            Ok(()) => Ok(()),
            Err(e) => {
                let (s, d) = self.copy_file_paths(src, dst, dst_is_dir);
                Err(Error::new_copy_file(e, s, d))
            },
        }
    }

    /// Hard-linking `src` to `dst`: done, or [`ErrorView::HardLink`] naming
    /// both read against the working directory.
    pub fn finish_hard_link(&self, src: &str, dst: &str, linked: Result<(), IoError>) -> (r: Result<
        (),
        Error,
    >)
        ensures
            match linked {
                Ok(()) => r is Ok,
                Err(e) => r matches Err(err) && err@ == (ErrorView::HardLink {
                    err: e@,
                    src: path_join(self@.cwd, src@),
                    dst: path_join(self@.cwd, dst@),
                }),
            },
    {
        match linked {
            Ok(()) => Ok(()),
            Err(e) => Err(Error::new_hard_link(e, self.path(src), self.path(dst))),
        }
    }

    /// Removing the path `path`: done, or [`ErrorView::RemovePath`] naming
    /// it read against the working directory.
    pub fn finish_remove_path(&self, path: &str, removed: Result<(), IoError>) -> (r: Result<
        (),
        Error,
    >)
        ensures
            match removed {
                Ok(()) => r is Ok,
                Err(e) => r matches Err(err) && err@ == (ErrorView::RemovePath {
                    err: e@,
                    path: path_join(self@.cwd, path@),
                }),
            },
    {
        match removed {
            Ok(()) => Ok(()),
            Err(e) => Err(Error::new_remove_path(e, self.path(path))),
        }
    }
}

/// How a path is removed.
#[derive(Clone, Copy, Debug, PartialEq, Eq, Structural)]
pub enum Removal {
    /// As a single file.
    File,
    /// As a directory, with everything in it.
    Tree,
}

/// A file is removed as a file; anything else as a tree.
pub fn removal_for(is_file: bool) -> (r: Removal)
    ensures
        r == (if is_file {
            Removal::File
        } else {
            Removal::Tree
        }),
{
    if is_file {
        Removal::File
    } else {
        Removal::Tree
    }
}

// ---------------------------------------------------------------------------
// Removing a tree, with retries
// ---------------------------------------------------------------------------

/// Where removing a tree can fail for a while (Windows), the failed attempts
/// that are retried before one more, final, attempt.
pub const REMOVE_TREE_RETRIES: u32 = 99;

/// The pause, in milliseconds, before a retry.
pub const REMOVE_TREE_PAUSE_MS: u64 = 10;

/// The removal of a tree: how many more failures are retried.
pub struct RemoveTreeAttempts {
    retries_left: u32,
}

/// What to do after an attempt to remove a tree.
#[derive(Debug)]
pub enum RemoveTreeStep {
    /// The removal is over, with this outcome.
    Finished(Result<(), IoError>),
    /// Pause for `REMOVE_TREE_PAUSE_MS` and try again.
    PauseAndRetry,
}

impl RemoveTreeAttempts {
    /// How many more failures are retried.
    pub closed spec fn retries_left(self) -> nat {
        self.retries_left as nat
    }

    /// A removal that retries up to `retries` failures (`REMOVE_TREE_RETRIES`
    /// where removal can fail for a while, 0 elsewhere).
    pub fn new(retries: u32) -> (r: RemoveTreeAttempts)
        ensures
            r.retries_left() == retries,
    {
        RemoveTreeAttempts { retries_left: retries }
    }

    /// Takes the outcome of one attempt: a success ends the removal; a
    /// failure is retried while retries are left, and ends it otherwise.
    pub fn step(&mut self, outcome: Result<(), IoError>) -> (r: RemoveTreeStep)
        ensures
            match outcome {
                Ok(()) => r matches RemoveTreeStep::Finished(Ok(())) && final(self).retries_left()
                    == old(self).retries_left(),
                Err(e) => if old(self).retries_left() == 0 {
                    r matches RemoveTreeStep::Finished(Err(x)) && x@ == e@
                        && final(self).retries_left() == 0
                } else {
                    r is PauseAndRetry && final(self).retries_left() == old(self).retries_left() - 1
                },
            },
    {
        match outcome {
            Ok(()) => RemoveTreeStep::Finished(Ok(())),
            Err(e) => {
                if self.retries_left == 0 {
                    RemoveTreeStep::Finished(Err(e))
                } else {
                    self.retries_left = self.retries_left - 1;
                    RemoveTreeStep::PauseAndRetry
                }
            },
        }
    }
}

} // verus!
