use vstd::prelude::*;
use crate::entry_path::{EntryPath, is_component_prefix, mapped_destination};
use crate::outcome::FatalKind;

verus! {

/// What a walked entry was when it was discovered.
#[derive(Clone, Copy, Debug, PartialEq, Eq, Structural)]
pub enum EntryKind {
    /// A regular file.
    File,
    /// A directory, or a symbolic link followed as one.
    DirLike,
    /// Anything else (a socket, a device): nothing is produced for it.
    Other,
}

/// The kind of an entry with the given file-type flags. A regular file is a
/// file even where it is also reported as something else.
pub open spec fn kind_of(is_file: bool, is_dir: bool, is_symlink: bool) -> EntryKind {
    if is_file {
        EntryKind::File
    } else if is_dir || is_symlink {
        EntryKind::DirLike
    } else {
        EntryKind::Other
    }
}

/// Classifies an entry from its file-type flags.
pub fn classify(is_file: bool, is_dir: bool, is_symlink: bool) -> (r: EntryKind)
    ensures
        r == kind_of(is_file, is_dir, is_symlink),
{
    if is_file {
        EntryKind::File
    } else if is_dir || is_symlink {
        EntryKind::DirLike
    } else {
        EntryKind::Other
    }
}

/// One walked entry, paired with where it goes and what it was when found.
pub struct Task {
    pub source: EntryPath,
    pub destination: EntryPath,
    pub kind: EntryKind,
}

impl Task {
    /// The task for an entry met by the walk of `source_root`: its destination
    /// is computed here, once. Fails where the entry does not lie under the
    /// source root.
    pub fn discover(
        source_root: &EntryPath,
        destination_root: &EntryPath,
        entry: EntryPath,
        kind: EntryKind,
    ) -> (r: Result<Task, FatalKind>)
        ensures
            r is Ok <==> is_component_prefix(source_root@, entry@),
            r matches Ok(t) ==> {
                &&& t.source@ == entry@
                &&& t.destination@ == mapped_destination(source_root@, destination_root@, entry@)
                &&& t.kind == kind
            },
            r matches Err(e) ==> e == FatalKind::OutsideSourceRoot,
    {
        match entry.strip_root(source_root) {
            Some(rel) => {
                let destination = destination_root.join(&rel);
                Ok(Task { source: entry, destination, kind })
            },
            None => Err(FatalKind::OutsideSourceRoot),
        }
    }
}

} // verus!
