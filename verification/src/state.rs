//! What is served: the root directory and, in direct-file mode, the file that
//! the root URL returns.
//!
//! The two are one value and change together, so a reader never meets a root
//! without the direct file that belongs to it.

use vstd::prelude::*;
use crate::path::CanonicalPath;

verus! {

/// What can go wrong.
#[derive(Debug, Clone, Copy, PartialEq, Eq, Structural)]
pub enum ServeError {
    /// The path is missing.
    NotFound,
    /// The path is there and is no directory.
    NotADirectory,
    /// The path is there and is no regular file.
    NotAFile,
    /// The path leaves the root.
    Forbidden,
    /// The file has no directory above it.
    NoParentDirectory,
    /// The watch could not be bound.
    WatchBindFailure,
    /// Reading or canonicalizing failed.
    InternalIO,
}

/// What stands at a path.
#[derive(Debug, Clone, Copy, PartialEq, Eq, Structural)]
pub enum EntryKind {
    /// Nothing.
    Missing,
    /// A directory.
    Directory,
    /// A regular file.
    File,
    /// Something else.
    Other,
}

/// What the filesystem said of a path: what stands there, and its canonical
/// form or why there is none.
#[derive(Debug, PartialEq, Eq)]
pub struct PathProbe {
    pub kind: EntryKind,
    pub canonical: Result<CanonicalPath, String>,
}

/// A probe in contracts.
pub struct ProbeView {
    pub kind: EntryKind,
    pub canonical: Result<Seq<Seq<char>>, Seq<char>>,
}

impl View for PathProbe {
    type V = ProbeView;

    open spec fn view(&self) -> ProbeView {
        ProbeView {
            kind: self.kind,
            canonical: match self.canonical {
                Ok(p) => Ok(p@),
                Err(why) => Err(why@),
            },
        }
    }
}

/// The serving state in contracts.
pub struct ServingView {
    pub root: Seq<Seq<char>>,
    pub direct_file: Option<Seq<Seq<char>>>,
}

impl ServingView {
    /// The direct file, where there is one, stands in the root directory.
    pub open spec fn consistent(self) -> bool {
        match self.direct_file {
            Some(file) => file.len() > 0 && file.drop_last() == self.root,
            None => true,
        }
    }
}

/// What setting the directory to a probed path gives.
pub open spec fn directory_outcome(probe: ProbeView) -> Result<Seq<Seq<char>>, ServeError> {
    if probe.kind == EntryKind::Missing {
        Err(ServeError::NotFound)
    } else if probe.kind != EntryKind::Directory {
        Err(ServeError::NotADirectory)
    } else {
        match probe.canonical {
            Ok(path) => Ok(path),
            Err(_) => Err(ServeError::InternalIO),
        }
    }
}

/// What setting the direct file to a probed path gives.
pub open spec fn file_outcome(probe: ProbeView) -> Result<Seq<Seq<char>>, ServeError> {
    if probe.kind == EntryKind::Missing {
        Err(ServeError::NotFound)
    } else if probe.kind != EntryKind::File {
        Err(ServeError::NotAFile)
    } else {
        match probe.canonical {
            Ok(path) => if path.len() > 0 {
                Ok(path)
            } else {
                Err(ServeError::NoParentDirectory)
            },
            Err(_) => Err(ServeError::InternalIO),
        }
    }
}

/// The state after the directory was set to a probed path.
pub open spec fn after_set_directory(before: ServingView, probe: ProbeView) -> ServingView {
    match directory_outcome(probe) {
        Ok(path) => ServingView { root: path, direct_file: None },
        Err(_) => before,
    }
}

/// The state after the direct file was set to a probed path.
pub open spec fn after_set_file(before: ServingView, probe: ProbeView) -> ServingView {
    match file_outcome(probe) {
        Ok(path) => ServingView { root: path.drop_last(), direct_file: Some(path) },
        Err(_) => before,
    }
}

/// The root directory and the direct file.
#[derive(Debug, PartialEq, Eq)]
pub struct ServingState {
    root: CanonicalPath,
    direct_file: Option<CanonicalPath>,
}

impl View for ServingState {
    type V = ServingView;

    closed spec fn view(&self) -> ServingView {
        ServingView {
            root: self.root@,
            direct_file: match self.direct_file {
                Some(file) => Some(file@),
                None => None,
            },
        }
    }
}

impl ServingState {
    #[verifier::type_invariant]
    closed spec fn well_formed(&self) -> bool {
        self@.consistent()
    }

    /// The first state: it serves the probed directory with no direct file. A
    /// path that is missing, is no directory or has no canonical form gives no
    /// state, so that the root is a directory from the start.
    pub fn start(probe: &PathProbe) -> (made: Result<ServingState, ServeError>)
        ensures
            match made {
                Ok(state) => directory_outcome(probe@) == Ok::<Seq<Seq<char>>, ServeError>(
                    state@.root,
                ) && state@.direct_file is None,
                Err(e) => directory_outcome(probe@) == Err::<Seq<Seq<char>>, ServeError>(e),
            },
    {
        if probe.kind == EntryKind::Missing {
            return Err(ServeError::NotFound);
        }
        if probe.kind != EntryKind::Directory {
            return Err(ServeError::NotADirectory);
        }
        match &probe.canonical {
            Ok(path) => Ok(ServingState { root: path.duplicate(), direct_file: None }),
            Err(_) => Err(ServeError::InternalIO),
        }
    }

    /// Checks nothing and changes nothing: it states that the direct file, where
    /// there is one, stands in the root directory.
    pub fn consistency_holds(&self)
        ensures
            self@.consistent(),
    {
        proof {
            use_type_invariant(self);
        }
    }

    /// The root directory.
    pub fn get_root(&self) -> (root: CanonicalPath)
        ensures
            root@ == self@.root,
    {
        self.root.duplicate()
    }

    /// The direct file, in direct-file mode.
    pub fn get_direct_file(&self) -> (file: Option<CanonicalPath>)
        ensures
            file is Some <==> self@.direct_file is Some,
            file is Some ==> file->0@ == self@.direct_file->0,
    {
        match &self.direct_file {
            Some(file) => Some(file.duplicate()),
            None => None,
        }
    }

    /// Makes the probed directory the root and leaves direct-file mode. A path
    /// that is missing, is no directory or has no canonical form changes nothing.
    pub fn set_directory(&mut self, probe: &PathProbe) -> (set: Result<CanonicalPath, ServeError>)
        ensures
            final(self)@ == after_set_directory(old(self)@, probe@),
            match set {
                Ok(path) => directory_outcome(probe@) == Ok::<Seq<Seq<char>>, ServeError>(path@),
                Err(e) => directory_outcome(probe@) == Err::<Seq<Seq<char>>, ServeError>(e),
            },
    {
        proof {
            use_type_invariant(&*self);
        }
        if probe.kind == EntryKind::Missing {
            return Err(ServeError::NotFound);
        }
        if probe.kind != EntryKind::Directory {
            return Err(ServeError::NotADirectory);
        }
        match &probe.canonical {
            Ok(path) => {
                *self = ServingState { root: path.duplicate(), direct_file: None };
                Ok(path.duplicate())
            },
            Err(_) => Err(ServeError::InternalIO),
        }
    }

    /// Makes the probed file the direct file and its directory the root. A path
    /// that is missing, is no regular file, has no canonical form or has no
    /// directory above it changes nothing.
    pub fn set_file(&mut self, probe: &PathProbe) -> (set: Result<CanonicalPath, ServeError>)
        ensures
            final(self)@ == after_set_file(old(self)@, probe@),
            match set {
                Ok(path) => file_outcome(probe@) == Ok::<Seq<Seq<char>>, ServeError>(path@),
                Err(e) => file_outcome(probe@) == Err::<Seq<Seq<char>>, ServeError>(e),
            },
    {
        proof {
            use_type_invariant(&*self);
        }
        if probe.kind == EntryKind::Missing {
            return Err(ServeError::NotFound);
        }
        if probe.kind != EntryKind::File {
            return Err(ServeError::NotAFile);
        }
        match &probe.canonical {
            Ok(path) => match path.parent() {
                Some(directory) => {
                    *self = ServingState { root: directory, direct_file: Some(path.duplicate()) };
                    Ok(path.duplicate())
                },
                None => Err(ServeError::NoParentDirectory),
            },
            Err(_) => Err(ServeError::InternalIO),
        }
    }
}

/// After a valid directory is set, the root is its canonical form and there is
/// no direct file.
pub proof fn law_set_directory_then_read(before: ServingView, probe: ProbeView)
    requires
        probe.kind == EntryKind::Directory,
        probe.canonical is Ok,
    ensures
        directory_outcome(probe) == Ok::<Seq<Seq<char>>, ServeError>(probe.canonical->Ok_0),
        after_set_directory(before, probe).root == probe.canonical->Ok_0,
        after_set_directory(before, probe).direct_file is None,
{
}

/// After a valid file is set, the root is the canonical directory of the file
/// and the direct file is the file's canonical form.
pub proof fn law_set_file_then_read(before: ServingView, probe: ProbeView)
    requires
        probe.kind == EntryKind::File,
        probe.canonical is Ok,
        probe.canonical->Ok_0.len() > 0,
    ensures
        file_outcome(probe) == Ok::<Seq<Seq<char>>, ServeError>(probe.canonical->Ok_0),
        after_set_file(before, probe).root == probe.canonical->Ok_0.drop_last(),
        after_set_file(before, probe).direct_file == Some(probe.canonical->Ok_0),
{
}

/// Setting a directory or a file keeps the direct file, where there is one,
/// in the root directory.
pub proof fn law_setting_keeps_consistency(before: ServingView, probe: ProbeView)
    requires
        before.consistent(),
    ensures
        after_set_directory(before, probe).consistent(),
        after_set_file(before, probe).consistent(),
{
}

} // verus!
