//! After the link: the shared libraries that have to lie beside the binary.
//!
//! On Windows a binary finds its libraries in its own directory, so those of
//! the package tree are copied there. A library is copied when the build
//! directory has no copy of it, or an older one.

use crate::path::{extension, extension_of, file_name, file_name_of, join, join_paths};
use crate::staleness::Timestamp;
use crate::text::equal;
use vstd::prelude::*;

verus! {

/// Whether a file has to be copied over a destination that was last
/// modified at `destination`, or does not exist.
pub open spec fn needs_copy(source: Timestamp, destination: Option<Timestamp>) -> bool {
    match destination {
        None => true,
        Some(at) => source.newer_than(at),
    }
}

/// Where a file of the package tree is copied to: a shared library goes
/// into the build directory under its own name, any other file nowhere.
pub open spec fn library_destination(path: Seq<char>, build_dir: Seq<char>) -> Option<Seq<char>> {
    if extension(path) == Some("dll"@) {
        Some(join(build_dir, file_name(path)))
    } else {
        None
    }
}

/// The directory of the package tree that holds the shared libraries.
pub open spec fn library_source_dir(root: Seq<char>, triplet: Seq<char>) -> Seq<char> {
    join(join(join(root, "packages"@), triplet), "bin"@)
}

/// Tells whether a file has to be copied over its destination.
pub fn should_copy(source: Timestamp, destination: Option<Timestamp>) -> (yes: bool)
    ensures
        yes == needs_copy(source, destination),
{
    match destination {
        None => true,
        Some(at) => source.is_newer_than(&at),
    }
}

/// Says where a file of the package tree is copied to, if anywhere.
pub fn copy_destination(path: &str, build_dir: &str) -> (destination: Option<String>)
    ensures
        destination.deep_view() == library_destination(path@, build_dir@),
{
    match extension_of(path) {
        Some(ext) => {
            if equal(ext.as_str(), "dll") {
                let name = file_name_of(path);
                Some(join_paths(build_dir, name.as_str()))
            } else {
                None
            }
        },
        None => None,
    }
}

/// The directory of the package tree that holds the shared libraries.
pub fn library_dir(root: &str, triplet: &str) -> (dir: String)
    ensures
        dir@ == library_source_dir(root@, triplet@),
{
    let packages = join_paths(root, "packages");
    let tree = join_paths(packages.as_str(), triplet);
    join_paths(tree.as_str(), "bin")
}

} // verus!
