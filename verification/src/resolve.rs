//! From a request path to a path that may be served: what is joined onto the
//! root, and whether the canonical result lies inside the root.

use vstd::prelude::*;
use crate::path::CanonicalPath;
use crate::state::ServeError;
use crate::text::{strip_leading, without_leading};

verus! {

/// What is joined onto the root for a request path: the path without the
/// separators at its front.
pub open spec fn relative_part(request_path: Seq<char>) -> Seq<char> {
    without_leading(request_path, '/')
}

/// The request is for the root URL.
pub open spec fn is_root_url(request_path: Seq<char>) -> bool {
    request_path == seq!['/']
}

/// What the resolver gives for the canonical form of the root and of the
/// joined path, each of them absent where the filesystem had none: an error of
/// the server where the root has none, a missing path where the joined path
/// has none, a forbidden one where it lies outside the root.
pub open spec fn resolution(
    root: Option<Seq<Seq<char>>>,
    target: Option<Seq<Seq<char>>>,
) -> Result<Seq<Seq<char>>, ServeError> {
    match root {
        None => Err(ServeError::InternalIO),
        Some(base) => match target {
            None => Err(ServeError::NotFound),
            Some(full) => if base.is_prefix_of(full) {
                Ok(full)
            } else {
                Err(ServeError::Forbidden)
            },
        },
    }
}

/// What is joined onto the root for a request path.
pub fn relative_request(request_path: &str) -> (relative: String)
    ensures
        relative@ == relative_part(request_path@),
{
    strip_leading(request_path, '/')
}

/// The path that may be served, or why none may.
pub fn resolve(root: &Option<CanonicalPath>, target: &Option<CanonicalPath>) -> (resolved: Result<
    CanonicalPath,
    ServeError,
>)
    ensures
        match resolved {
            Ok(path) => resolution(view_of(*root), view_of(*target)) == Ok::<
                Seq<Seq<char>>,
                ServeError,
            >(path@),
            Err(e) => resolution(view_of(*root), view_of(*target)) == Err::<
                Seq<Seq<char>>,
                ServeError,
            >(e),
        },
{
    match root {
        None => Err(ServeError::InternalIO),
        Some(base) => match target {
            None => Err(ServeError::NotFound),
            Some(full) => if full.is_within(base) {
                Ok(full.duplicate())
            } else {
                Err(ServeError::Forbidden)
            },
        },
    }
}

/// A path that may be absent, in contracts.
pub open spec fn view_of(path: Option<CanonicalPath>) -> Option<Seq<Seq<char>>> {
    match path {
        Some(p) => Some(p@),
        None => None,
    }
}

/// Whatever the request path was and wherever its canonical form lies, a
/// resolution that succeeds gives that canonical form, and it lies inside the
/// root. One that lies outside is forbidden, one that has no canonical form is
/// missing: nothing else comes of a root that has a canonical form.
pub proof fn law_resolution_stays_inside(
    root: Option<Seq<Seq<char>>>,
    target: Option<Seq<Seq<char>>>,
)
    ensures
        match resolution(root, target) {
            Ok(path) => root is Some && target == Some(path) && root->0.is_prefix_of(path),
            Err(e) => e == ServeError::NotFound || e == ServeError::Forbidden || e
                == ServeError::InternalIO,
        },
        root is Some && target is Some && !root->0.is_prefix_of(target->0) ==> resolution(
            root,
            target,
        ) == Err::<Seq<Seq<char>>, ServeError>(ServeError::Forbidden),
        root is Some && target is None ==> resolution(root, target) == Err::<
            Seq<Seq<char>>,
            ServeError,
        >(ServeError::NotFound),
{
}

/// A path inside the root has the root's components at its front, one for
/// one: it is the root or lies below it.
pub proof fn law_inside_means_below(root: Seq<Seq<char>>, path: Seq<Seq<char>>)
    requires
        root.is_prefix_of(path),
    ensures
        root.len() <= path.len(),
        forall|i: int| 0 <= i < root.len() ==> path[i] == root[i],
{
    assert forall|i: int| 0 <= i < root.len() implies path[i] == root[i] by {
        assert(path.subrange(0, root.len() as int)[i] == path[i]);
    }
}

} // verus!
