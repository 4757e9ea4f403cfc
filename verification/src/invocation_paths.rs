//! The outcome of locating an invocation's filesystem paths.
//!
//! Commands may be started outside any project repository; some of them
//! (log readers) still want to run, so the "outside of a repository"
//! error is kept apart from other failures until a caller decides that it
//! needs the paths after all.

use vstd::prelude::*;

verus! {

/// A command-level error, carried as its rendered message.
#[derive(Debug)]
pub struct BuildError {
    /// The rendered error message.
    pub message: String,
}

impl Clone for BuildError {
    fn clone(&self) -> (r: Self)
        ensures
            r == *self,
    {
        BuildError { message: self.message.clone() }
    }
}

/// The filesystem paths that identify one command invocation.
#[derive(Debug)]
pub struct InvocationPaths {
    /// The project root the invocation runs in.
    pub project_root: String,
    /// The isolation directory name of this invocation.
    pub isolation_dir: String,
}

impl Clone for InvocationPaths {
    fn clone(&self) -> (r: Self)
        ensures
            r == *self,
    {
        InvocationPaths {
            project_root: self.project_root.clone(),
            isolation_dir: self.isolation_dir.clone(),
        }
    }
}

/// The outcome of locating the invocation paths: the paths, a failure, or
/// the distinguished "outside of a repository" failure that log commands
/// ignore when building their invocation record.
#[derive(Debug)]
pub enum InvocationPathsResult {
    /// Locating the paths failed for an ordinary reason.
    OtherError(BuildError),
    /// The paths were located.
    Paths(InvocationPaths),
    /// The command was started outside of any repository.
    OutsideOfRepo(BuildError),
}

impl Clone for InvocationPathsResult {
    fn clone(&self) -> (r: Self)
        ensures
            r == *self,
    {
        match self {
            InvocationPathsResult::OtherError(e) => InvocationPathsResult::OtherError(e.clone()),
            InvocationPathsResult::Paths(p) => InvocationPathsResult::Paths(p.clone()),
            InvocationPathsResult::OutsideOfRepo(e) => InvocationPathsResult::OutsideOfRepo(
                e.clone(),
            ),
        }
    }
}

impl InvocationPathsResult {
    /// Collapses the outcome for a caller that needs the paths: both
    /// error forms, the "outside of a repository" one included, become
    /// plain errors.
    pub fn get_result(self) -> (r: Result<InvocationPaths, BuildError>)
        ensures
            r is Ok <==> self is Paths,
            self matches InvocationPathsResult::Paths(p) ==> r == Ok::<
                InvocationPaths,
                BuildError,
            >(p),
            self matches InvocationPathsResult::OtherError(e) ==> r == Err::<
                InvocationPaths,
                BuildError,
            >(e),
            self matches InvocationPathsResult::OutsideOfRepo(e) ==> r == Err::<
                InvocationPaths,
                BuildError,
            >(e),
    {
        match self {
            InvocationPathsResult::OtherError(e) => Err(e),
            InvocationPathsResult::Paths(paths) => Ok(paths),
            InvocationPathsResult::OutsideOfRepo(e) => Err(e),
        }
    }

    /// Wraps an error propagated from an earlier step: every such error
    /// becomes the ordinary error form.
    pub fn from_error(e: BuildError) -> (r: InvocationPathsResult)
        ensures
            r == InvocationPathsResult::OtherError(e),
    {
        InvocationPathsResult::OtherError(e)
    }
}

} // verus!
