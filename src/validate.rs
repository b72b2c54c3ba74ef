use vstd::prelude::*;

verus! {

/// What a filesystem metadata query reported for a path.
#[derive(Clone, Copy, Debug, PartialEq, Eq)]
pub enum PathMeta {
    /// The metadata could not be read.
    Missing,
    File,
    Directory,
    /// Neither a regular file nor a directory (a device, a socket, ...).
    Other,
}

/// The kind of an accepted path.
#[derive(Clone, Copy, Debug, PartialEq, Eq)]
pub enum PathKind {
    File,
    Directory,
}

#[derive(Clone, Copy, Debug, PartialEq, Eq)]
pub enum ValidationError {
    /// The path's metadata could not be read (an empty path has none).
    NotFound,
    /// The path is neither a regular file nor a directory.
    UnsupportedKind,
}

/// The verdict on a path, given the metadata found for it.
pub open spec fn path_verdict(path: Seq<char>, meta: PathMeta) -> Result<PathKind, ValidationError> {
    if path.len() == 0 {
        Err(ValidationError::NotFound)
    } else {
        match meta {
            PathMeta::Missing => Err(ValidationError::NotFound),
            PathMeta::File => Ok(PathKind::File),
            PathMeta::Directory => Ok(PathKind::Directory),
            PathMeta::Other => Err(ValidationError::UnsupportedKind),
        }
    }
}

/// Decides whether `path` is usable, from the metadata that was read for it.
pub fn check_path(path: &str, meta: PathMeta) -> (r: Result<PathKind, ValidationError>)
    ensures
        r == path_verdict(path@, meta),
{
    if path.is_empty() {
        return Err(ValidationError::NotFound);
    }
    match meta {
        PathMeta::Missing => Err(ValidationError::NotFound),
        PathMeta::File => Ok(PathKind::File),
        PathMeta::Directory => Ok(PathKind::Directory),
        PathMeta::Other => Err(ValidationError::UnsupportedKind),
    }
}

} // verus!
