//! The builder of an executor, and the search for the supervisor's binary.
//!
//! The binary is looked for in three places, the first that holds a file
//! wins: where the variable `FIRECRACKER_LOCATION` points, the directories of
//! `PATH` in their order, and the current directory. The library does not
//! read the environment or the disk: the caller says what is there.

use vstd::prelude::*;
use vstd::string::StringExecFns;

use crate::builder::{assert_not_none, Builder, BuilderError, BuilderErrorView};
use crate::executor::{
    default_id, Executor, ExecutorView, FirecrackerExecutor, FirecrackerExecutorView,
    SocketProcess,
};
use crate::path::{join, joined};

verus! {

/// A place where the binary may be, and whether a file is there.
#[derive(Debug, Clone, PartialEq, Eq)]
pub struct Candidate {
    pub path: String,
    pub is_file: bool,
}

/// What the host says of the places where the binary is looked for.
#[derive(Debug, Clone, PartialEq, Eq)]
pub struct BinarySearch {
    /// Where `FIRECRACKER_LOCATION` points, if it is set.
    pub location: Option<Candidate>,
    /// For each directory of `PATH`, in their order, the binary's place in
    /// it: see `path_candidates`.
    pub path: Vec<Candidate>,
    /// Whether the binary's place in the current directory holds a file.
    pub current_directory: bool,
}

/// The name of the supervisor's binary.
pub open spec fn binary_name() -> Seq<char> {
    "firecracker"@
}

/// The binary's place in the current directory.
pub open spec fn local_binary() -> Seq<char> {
    "./firecracker"@
}

/// The root below which machines have their workspaces unless another is
/// given.
pub open spec fn default_chroot() -> Seq<char> {
    "/srv"@
}

/// What is said when the binary is nowhere.
pub open spec fn not_found_hint() -> Seq<char> {
    "Check if FIRECRACKER_LOCATION environment variable is correctly set. For more information check https://docs.rs/firepilot/ "@
}

/// The first of `candidates` that holds a file.
pub open spec fn first_file(candidates: Seq<Candidate>) -> Option<Seq<char>>
    decreases candidates.len(),
{
    if candidates.len() == 0 {
        None
    } else if candidates[0].is_file {
        Some(candidates[0].path@)
    } else {
        first_file(candidates.drop_first())
    }
}

impl BinarySearch {
    /// The binary that the variable names, if it names a file.
    pub open spec fn from_location(self) -> Option<Seq<char>> {
        match self.location {
            Some(candidate) => if candidate.is_file {
                Some(candidate.path@)
            } else {
                None
            },
            None => None,
        }
    }

    /// The binary in the current directory, if a file is there.
    pub open spec fn from_current_directory(self) -> Option<Seq<char>> {
        if self.current_directory {
            Some(local_binary())
        } else {
            None
        }
    }

    /// The binary that the search finds: where the variable points, else the
    /// first in `PATH`, else the one in the current directory.
    pub open spec fn located(self) -> Option<Seq<char>> {
        if self.from_location() is Some {
            self.from_location()
        } else if first_file(self.path@) is Some {
            first_file(self.path@)
        } else {
            self.from_current_directory()
        }
    }

    /// Whether the variable is set and names no file: worth a warning, and no
    /// reason to stop looking.
    pub open spec fn spec_location_is_stale(self) -> bool {
        self.location matches Some(candidate) && !candidate.is_file
    }

    /// Tells whether the variable is set and names no file.
    pub fn location_is_stale(&self) -> (stale: bool)
        ensures
            stale == self.spec_location_is_stale(),
    {
        match &self.location {
            Some(candidate) => !candidate.is_file,
            None => false,
        }
    }
}

/// If the variable names a file, the search finds that file, whatever `PATH`
/// holds.
pub proof fn lemma_location_wins(search: BinarySearch)
    requires
        search.location matches Some(candidate) && candidate.is_file,
    ensures
        search.located() == Some(search.location->0.path@),
{
}

/// If the variable names no file and the directory at `i` is the first of
/// `PATH` that holds the binary, the search finds the binary there.
pub proof fn lemma_path_wins(search: BinarySearch, i: int)
    requires
        search.from_location() is None,
        0 <= i < search.path@.len(),
        search.path@[i].is_file,
        forall|j: int| 0 <= j < i ==> !search.path@[j].is_file,
    ensures
        search.located() == Some(search.path@[i].path@),
{
    lemma_first_file(search.path@, i);
}

/// If neither the variable nor a directory of `PATH` nor the current
/// directory gives a file, the search finds nothing.
pub proof fn lemma_nothing_found(search: BinarySearch)
    requires
        search.from_location() is None,
        forall|j: int| 0 <= j < search.path@.len() ==> !search.path@[j].is_file,
        !search.current_directory,
    ensures
        search.located() is None,
{
    lemma_no_file(search.path@);
}

/// The first file of `candidates` is the one at `i` if none stands before it.
pub proof fn lemma_first_file(candidates: Seq<Candidate>, i: int)
    requires
        0 <= i < candidates.len(),
        candidates[i].is_file,
        forall|j: int| 0 <= j < i ==> !candidates[j].is_file,
    ensures
        first_file(candidates) == Some(candidates[i].path@),
    decreases candidates.len(),
{
    if i > 0 {
        let rest = candidates.drop_first();
        lemma_first_file(rest, i - 1);
    }
}

/// There is no first file where there is no file.
pub proof fn lemma_no_file(candidates: Seq<Candidate>)
    requires
        forall|j: int| 0 <= j < candidates.len() ==> !candidates[j].is_file,
    ensures
        first_file(candidates) is None,
    decreases candidates.len(),
{
    if candidates.len() > 0 {
        let rest = candidates.drop_first();
        lemma_no_file(rest);
    }
}

/// Builds an `Executor` that runs the supervisor from its binary. The root
/// of the workspaces and the binary are required.
#[derive(Debug)]
pub struct FirecrackerExecutorBuilder {
    pub chroot: Option<String>,
    pub exec_binary: Option<String>,
}

impl FirecrackerExecutorBuilder {
    pub fn new() -> (builder: FirecrackerExecutorBuilder)
        ensures
            builder == (FirecrackerExecutorBuilder { chroot: None, exec_binary: None }),
    {
        FirecrackerExecutorBuilder { chroot: None, exec_binary: None }
    }

    /// The binary's place in each of `directories`, in their order: the
    /// places that the host is to look at for the directories of `PATH`.
    pub fn path_candidates(directories: &Vec<String>) -> (places: Vec<String>)
        ensures
            places.len() == directories.len(),
            forall|i: int|
                0 <= i < places.len() ==> (#[trigger] places[i])@ == joined(
                    directories[i]@,
                    binary_name(),
                ),
    {
        let mut places: Vec<String> = Vec::new();
        let mut i: usize = 0;
        while i < directories.len()
            invariant
                i <= directories.len(),
                places.len() == i,
                forall|k: int|
                    0 <= k < i ==> (#[trigger] places[k])@ == joined(
                        directories[k]@,
                        binary_name(),
                    ),
            decreases directories.len() - i,
        {
            places.push(join(directories[i].as_str(), "firecracker"));
            i = i + 1;
        }
        places
    }

    /// The binary in the first directory of `PATH` that holds it.
    pub fn find_binary_from_path(path: &Vec<Candidate>) -> (found: Option<String>)
        ensures
            found.deep_view() == first_file(path@),
    {
        let mut i: usize = 0;
        assert(path@.skip(0) =~= path@);
        while i < path.len()
            invariant
                i <= path.len(),
                first_file(path@) == first_file(path@.skip(i as int)),
            decreases path.len() - i,
        {
            proof {
                assert(path@.skip(i as int).drop_first() =~= path@.skip(i + 1));
            }
            if path[i].is_file {
                return Some(path[i].path.clone());
            }
            i = i + 1;
        }
        None
    }

    /// The binary in the current directory, if `is_file` says that it is
    /// there.
    pub fn find_binary_from_current_directory(is_file: bool) -> (found: Option<String>)
        ensures
            found.deep_view() == if is_file {
                Some(local_binary())
            } else {
                None
            },
    {
        if is_file {
            Some(String::from_str("./firecracker"))
        } else {
            None
        }
    }

    /// The binary that the variable names, if it is set and names a file.
    pub fn find_binary_from_env_location(location: &Option<Candidate>) -> (found: Option<String>)
        ensures
            found.deep_view() == match *location {
                Some(candidate) => if candidate.is_file {
                    Some(candidate.path@)
                } else {
                    None
                },
                None => None,
            },
    {
        match location {
            Some(candidate) => if candidate.is_file {
                Some(candidate.path.clone())
            } else {
                None
            },
            None => None,
        }
    }

    /// Finds the binary: where the variable points, else the first in
    /// `PATH`, else the one in the current directory. If none of them is a
    /// file the binary is not found.
    pub fn determine_binary_location(search: &BinarySearch) -> (found: Result<String, BuilderError>)
        ensures
            match search.located() {
                Some(place) => found matches Ok(binary) && binary@ == place,
                None => found matches Err(error) && error@ == BuilderErrorView::BinaryNotFound(
                    not_found_hint(),
                ),
            },
    {
        match Self::find_binary_from_env_location(&search.location) {
            Some(binary) => {
                return Ok(binary);
            },
            None => {},
        }
        match Self::find_binary_from_path(&search.path) {
            Some(binary) => {
                return Ok(binary);
            },
            None => {},
        }
        match Self::find_binary_from_current_directory(search.current_directory) {
            Some(binary) => Ok(binary),
            None => Err(
                BuilderError::BinaryNotFound(
                    String::from_str(
                        "Check if FIRECRACKER_LOCATION environment variable is correctly set. For more information check https://docs.rs/firepilot/ ",
                    ),
                ),
            ),
        }
    }

    /// A builder with the binary that the search finds, and `/srv` as the
    /// root of the workspaces.
    pub fn auto(search: &BinarySearch) -> (built: Result<FirecrackerExecutorBuilder, BuilderError>)
        ensures
            match search.located() {
                Some(place) => built matches Ok(builder) && builder.chroot.deep_view() == Some(
                    default_chroot(),
                ) && builder.exec_binary.deep_view() == Some(place),
                None => built matches Err(error) && error@ == BuilderErrorView::BinaryNotFound(
                    not_found_hint(),
                ),
            },
    {
        match Self::determine_binary_location(search) {
            Ok(binary) => {
                let chroot = String::from_str("/srv");
                Ok(Self::new().with_chroot(chroot).with_exec_binary(binary))
            },
            Err(error) => Err(error),
        }
    }

    pub fn with_chroot(self, chroot: String) -> (builder: FirecrackerExecutorBuilder)
        ensures
            builder == (FirecrackerExecutorBuilder { chroot: Some(chroot), ..self }),
    {
        FirecrackerExecutorBuilder { chroot: Some(chroot), ..self }
    }

    pub fn with_exec_binary(self, exec_binary: String) -> (builder: FirecrackerExecutorBuilder)
        ensures
            builder == (FirecrackerExecutorBuilder { exec_binary: Some(exec_binary), ..self }),
    {
        FirecrackerExecutorBuilder { exec_binary: Some(exec_binary), ..self }
    }
}

impl Builder<Executor> for FirecrackerExecutorBuilder {
    open spec fn missing(&self) -> Option<Seq<char>> {
        if self.chroot is None {
            Some("self.chroot"@)
        } else if self.exec_binary is None {
            Some("self.exec_binary"@)
        } else {
            None
        }
    }

    /// The executor runs the builder's binary below the builder's root. It
    /// is named "default", holds no process handle and has nothing to do.
    fn try_build(self) -> (built: Result<Executor, BuilderError>)
        ensures
            built matches Ok(executor) ==> executor@ == (ExecutorView {
                firecracker: Some(
                    FirecrackerExecutorView {
                        chroot: self.chroot.unwrap()@,
                        exec_binary: self.exec_binary.unwrap()@,
                    },
                ),
                socket_process: SocketProcess::NotStarted,
                id: default_id(),
                remaining: Seq::empty(),
                misses: 0,
            }),
    {
        match assert_not_none("self.chroot", &self.chroot) {
            Err(error) => {
                return Err(error);
            },
            Ok(_) => {},
        }
        match assert_not_none("self.exec_binary", &self.exec_binary) {
            Err(error) => {
                return Err(error);
            },
            Ok(_) => {},
        }
        let executor = FirecrackerExecutor {
            chroot: self.chroot.unwrap(),
            exec_binary: self.exec_binary.unwrap(),
        };
        Ok(Executor::new_with_firecracker(executor))
    }
}

} // verus!
