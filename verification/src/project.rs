//! A project on disk: its root directory, its manifest, and the layout of
//! its build outputs.
//!
//! The outputs of a profile go to `<root>/target/<profile>/`: the binary,
//! named after the package, and beneath `obj/` the object files.

use crate::manifest::{Manifest, ManifestModel};
use crate::path::{join, join_paths, lemma_last_index_of, parent, parent_of};
use crate::text::{concatenate, push_text};
use vstd::prelude::*;

verus! {

/// A project: where it is and what its manifest says.
#[derive(Debug)]
pub struct Project {
    pub root: String,
    pub manifest: Manifest,
}

/// What a `Project` holds, as mathematical values.
pub struct ProjectModel {
    pub root: Seq<char>,
    pub manifest: ManifestModel,
}

impl DeepView for Project {
    type V = ProjectModel;

    open spec fn deep_view(&self) -> ProjectModel {
        ProjectModel { root: self.root@, manifest: self.manifest.deep_view() }
    }
}

/// The file name of the binary of a package: the package's name, with the
/// suffix `.exe` on Windows.
pub open spec fn binary_name(package: Seq<char>, windows: bool) -> Seq<char> {
    if windows {
        package + ".exe"@
    } else {
        package
    }
}

/// The directory of a profile's outputs.
pub open spec fn build_dir(root: Seq<char>, profile: Seq<char>) -> Seq<char> {
    join(join(root, "target"@), profile)
}

/// The directory of a profile's object files.
pub open spec fn object_dir(root: Seq<char>, profile: Seq<char>) -> Seq<char> {
    join(build_dir(root, profile), "obj"@)
}

/// The directory that is searched for sources.
pub open spec fn source_dir(root: Seq<char>) -> Seq<char> {
    join(root, "src"@)
}

/// Where the binary of a package goes: a function of the project's root,
/// the profile, the package's name and the platform, and of nothing else.
pub open spec fn binary_path(
    root: Seq<char>,
    profile: Seq<char>,
    package: Seq<char>,
    windows: bool,
) -> Seq<char> {
    join(build_dir(root, profile), binary_name(package, windows))
}

/// The places where the manifest of a project may be, seen from `dir`: in
/// `dir` itself, then in each directory above it, nearest first.
pub open spec fn manifest_candidates(dir: Seq<char>) -> Seq<Seq<char>>
    decreases dir.len(),
{
    let here = seq![join(dir, "ppargo.toml"@)];
    match parent(dir) {
        Some(up) => if up.len() < dir.len() {
            here + manifest_candidates(up)
        } else {
            here
        },
        None => here,
    }
}

/// The directory that holds a path is a shorter path.
pub proof fn lemma_parent_is_shorter(p: Seq<char>)
    ensures
        parent(p) is Some ==> parent(p)->0.len() < p.len(),
{
    lemma_last_index_of(p, '/');
}

/// Lists the places where the manifest of a project may be, seen from
/// `dir`, nearest first.
pub fn find_manifest_candidates(dir: &str) -> (places: Vec<String>)
    ensures
        places.deep_view() == manifest_candidates(dir@),
{
    let mut places: Vec<String> = Vec::new();
    let mut current = dir.to_string();
    let mut more = true;
    proof {
        assert(places.deep_view() =~= Seq::<Seq<char>>::empty());
        assert(Seq::<Seq<char>>::empty() + manifest_candidates(dir@) =~= manifest_candidates(
            dir@,
        ));
    }
    while more
        invariant
            more ==> places.deep_view() + manifest_candidates(current@) == manifest_candidates(
                dir@,
            ),
            !more ==> places.deep_view() == manifest_candidates(dir@),
        decreases current@.len() + if more { 1nat } else { 0nat },
    {
        let ghost before = places.deep_view();
        let ghost here = current@;
        let place = join_paths(current.as_str(), "ppargo.toml");
        push_text(&mut places, place.as_str());
        proof {
            lemma_parent_is_shorter(here);
        }
        match parent_of(current.as_str()) {
            Some(up) => {
                proof {
                    assert(before.push(place@) + manifest_candidates(up@) =~= before + (seq![
                        place@,
                    ] + manifest_candidates(up@)));
                }
                current = up;
            },
            None => {
                proof {
                    assert(before.push(place@) =~= before + seq![place@]);
                }
                more = false;
            },
        }
    }
    places
}

impl Project {
    /// The file name of the project's binary.
    pub fn get_binary_name(&self, windows: bool) -> (name: String)
        ensures
            name@ == binary_name(self.manifest.package.name@, windows),
    {
        if windows {
            concatenate(self.manifest.package.name.as_str(), ".exe")
        } else {
            self.manifest.package.name.clone()
        }
    }

    /// The directory of a profile's outputs.
    pub fn get_build_dir(&self, profile: &str) -> (dir: String)
        ensures
            dir@ == build_dir(self.root@, profile@),
    {
        let target = join_paths(self.root.as_str(), "target");
        join_paths(target.as_str(), profile)
    }

    /// The directory that is searched for sources.
    pub fn get_source_dir(&self) -> (dir: String)
        ensures
            dir@ == source_dir(self.root@),
    {
        join_paths(self.root.as_str(), "src")
    }

    /// Where the project's binary goes.
    pub fn get_binary_path(&self, profile: &str, windows: bool) -> (path: String)
        ensures
            path@ == binary_path(self.root@, profile@, self.manifest.package.name@, windows),
    {
        let dir = self.get_build_dir(profile);
        let name = self.get_binary_name(windows);
        join_paths(dir.as_str(), name.as_str())
    }
}

} // verus!
