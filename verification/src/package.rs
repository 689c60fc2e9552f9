//! Package backends: where the headers and libraries of the declared
//! dependencies are found.
//!
//! A backend answers one question, `resolve`, with a `PackagePathSet`. The
//! built-in backend supplies nothing. The vcpkg backend supplies the
//! `include` directory of its root, the `lib` directory of the platform's
//! triplet beneath that root, and the libraries that the manifest declares.

use crate::error::{modelled, BuildError, BuildErrorModel, ConfigProblem, ConfigProblemModel};
use crate::manifest::{link_libraries, Manifest, ManifestModel, PackageManagerType};
use crate::path::{join, join_paths};
use crate::platform::{detect_triplet, is_known_platform, triplet_name, unknown_platform_warning};
use crate::text::push_text;
use vstd::prelude::*;

verus! {

/// What a backend supplies to a build. It is resolved once and only read
/// afterwards.
#[derive(Debug)]
pub struct PackagePathSet {
    pub include_dirs: Vec<String>,
    pub lib_dirs: Vec<String>,
    pub link_libs: Vec<String>,
    pub triplet: Option<String>,
}

/// What a `PackagePathSet` holds, as mathematical values.
pub struct PackagePathSetModel {
    pub include_dirs: Seq<Seq<char>>,
    pub lib_dirs: Seq<Seq<char>>,
    pub link_libs: Seq<Seq<char>>,
    pub triplet: Option<Seq<char>>,
}

impl DeepView for PackagePathSet {
    type V = PackagePathSetModel;

    open spec fn deep_view(&self) -> PackagePathSetModel {
        PackagePathSetModel {
            include_dirs: self.include_dirs.deep_view(),
            lib_dirs: self.lib_dirs.deep_view(),
            link_libs: self.link_libs.deep_view(),
            triplet: self.triplet.deep_view(),
        }
    }
}

/// The backend of a project, as configured.
#[derive(Debug)]
pub struct PackageManager {
    pub manager_type: PackageManagerType,
    pub vcpkg_root: Option<String>,
    pub triplet: Option<String>,
    pub project_root: String,
    /// The warning to show where the platform was not recognised.
    pub warning: Option<String>,
}

/// What a `PackageManager` holds, as mathematical values.
pub struct PackageManagerModel {
    pub manager_type: PackageManagerType,
    pub vcpkg_root: Option<Seq<char>>,
    pub triplet: Option<Seq<char>>,
    pub project_root: Seq<char>,
    pub warning: Option<Seq<char>>,
}

impl DeepView for PackageManager {
    type V = PackageManagerModel;

    open spec fn deep_view(&self) -> PackageManagerModel {
        PackageManagerModel {
            manager_type: self.manager_type,
            vcpkg_root: self.vcpkg_root.deep_view(),
            triplet: self.triplet.deep_view(),
            project_root: self.project_root@,
            warning: self.warning.deep_view(),
        }
    }
}

/// What no backend supplies: nothing.
pub open spec fn no_packages() -> PackagePathSetModel {
    PackagePathSetModel {
        include_dirs: Seq::empty(),
        lib_dirs: Seq::empty(),
        link_libs: Seq::empty(),
        triplet: None,
    }
}

/// The backend that a manifest configures for a project on a platform. The
/// vcpkg backend needs a root directory; without one the configuration is
/// refused.
pub open spec fn configured_backend(
    project_root: Seq<char>,
    manifest: ManifestModel,
    os: Seq<char>,
    arch: Seq<char>,
) -> Result<PackageManagerModel, BuildErrorModel> {
    match manifest.features.package_manager {
        PackageManagerType::Ppargo => Ok(
            PackageManagerModel {
                manager_type: PackageManagerType::Ppargo,
                vcpkg_root: None,
                triplet: None,
                project_root,
                warning: None,
            },
        ),
        PackageManagerType::Vcpkg => match manifest.features.vcpkg_root {
            None => Err(BuildErrorModel::ConfigError(ConfigProblemModel::PackageRootUnset)),
            Some(root) => Ok(
                PackageManagerModel {
                    manager_type: PackageManagerType::Vcpkg,
                    vcpkg_root: Some(root),
                    triplet: Some(triplet_name(os, arch)),
                    project_root,
                    warning: if is_known_platform(os, arch) {
                        None
                    } else {
                        Some(unknown_platform_warning(os, arch))
                    },
                },
            ),
        },
    }
}

impl PackageManagerModel {
    /// The directories searched for headers.
    pub open spec fn include_path(self) -> Seq<Seq<char>> {
        match (self.manager_type, self.vcpkg_root) {
            (PackageManagerType::Vcpkg, Some(root)) => seq![join(root, "include"@)],
            _ => Seq::empty(),
        }
    }

    /// The directories searched for libraries.
    pub open spec fn lib_paths(self) -> Seq<Seq<char>> {
        match (self.manager_type, self.vcpkg_root, self.triplet) {
            (PackageManagerType::Vcpkg, Some(root), Some(triplet)) => seq![
                join(join(root, triplet), "lib"@),
            ],
            _ => Seq::empty(),
        }
    }

    /// What the backend supplies to a build of `manifest`.
    pub open spec fn resolve(self, manifest: ManifestModel) -> PackagePathSetModel {
        PackagePathSetModel {
            include_dirs: self.include_path(),
            lib_dirs: self.lib_paths(),
            link_libs: match self.manager_type {
                PackageManagerType::Vcpkg => link_libraries(manifest.dependencies),
                PackageManagerType::Ppargo => Seq::empty(),
            },
            triplet: self.triplet,
        }
    }
}

impl PackagePathSet {
    /// What a build without a backend gets.
    pub fn none() -> (paths: PackagePathSet)
        ensures
            paths.deep_view() == no_packages(),
    {
        let paths = PackagePathSet {
            include_dirs: Vec::new(),
            lib_dirs: Vec::new(),
            link_libs: Vec::new(),
            triplet: None,
        };
        assert(paths.include_dirs.deep_view() =~= Seq::<Seq<char>>::empty());
        assert(paths.lib_dirs.deep_view() =~= Seq::<Seq<char>>::empty());
        assert(paths.link_libs.deep_view() =~= Seq::<Seq<char>>::empty());
        paths
    }
}

impl PackageManager {
    /// Sets up the backend that `manifest` configures.
    pub fn new(project_root: &str, manifest: &Manifest, os: &str, arch: &str) -> (manager: Result<
        PackageManager,
        BuildError,
    >)
        ensures
            modelled(manager) == configured_backend(
                project_root@,
                manifest.deep_view(),
                os@,
                arch@,
            ),
    {
        match manifest.features.package_manager {
            PackageManagerType::Ppargo => Ok(
                PackageManager {
                    manager_type: PackageManagerType::Ppargo,
                    vcpkg_root: None,
                    triplet: None,
                    project_root: project_root.to_string(),
                    warning: None,
                },
            ),
            PackageManagerType::Vcpkg => match &manifest.features.vcpkg_root {
                None => Err(BuildError::ConfigError(ConfigProblem::PackageRootUnset)),
                Some(root) => {
                    let triplet = detect_triplet(os, arch);
                    Ok(
                        PackageManager {
                            manager_type: PackageManagerType::Vcpkg,
                            vcpkg_root: Some(root.clone()),
                            triplet: Some(triplet.name),
                            project_root: project_root.to_string(),
                            warning: triplet.warning,
                        },
                    )
                },
            },
        }
    }

    /// Installs what the manifest declares. Neither backend has anything to
    /// do here: the packages of a vcpkg tree are installed by vcpkg itself.
    pub fn install_dependencies(&self, _manifest: &Manifest) -> (done: Result<(), BuildError>)
        ensures
            done is Ok,
    {
        match self.manager_type {
            PackageManagerType::Vcpkg => Ok(()),
            PackageManagerType::Ppargo => Ok(()),
        }
    }

    /// The directories searched for headers.
    pub fn get_include_path(&self) -> (dirs: Vec<String>)
        ensures
            dirs.deep_view() == self.deep_view().include_path(),
    {
        let mut dirs: Vec<String> = Vec::new();
        assert(dirs.deep_view() =~= Seq::<Seq<char>>::empty());
        match self.manager_type {
            PackageManagerType::Vcpkg => {
                if let Some(root) = &self.vcpkg_root {
                    let dir = join_paths(root.as_str(), "include");
                    push_text(&mut dirs, dir.as_str());
                    assert(dirs.deep_view() =~= seq![join(root@, "include"@)]);
                }
            },
            PackageManagerType::Ppargo => {},
        }
        dirs
    }

    /// The directories searched for libraries.
    pub fn get_lib_paths(&self) -> (dirs: Vec<String>)
        ensures
            dirs.deep_view() == self.deep_view().lib_paths(),
    {
        let mut dirs: Vec<String> = Vec::new();
        assert(dirs.deep_view() =~= Seq::<Seq<char>>::empty());
        match self.manager_type {
            PackageManagerType::Vcpkg => {
                if let Some(root) = &self.vcpkg_root {
                    if let Some(triplet) = &self.triplet {
                        let base = join_paths(root.as_str(), triplet.as_str());
                        let dir = join_paths(base.as_str(), "lib");
                        push_text(&mut dirs, dir.as_str());
                        assert(dirs.deep_view() =~= seq![join(join(root@, triplet@), "lib"@)]);
                    }
                }
            },
            PackageManagerType::Ppargo => {},
        }
        dirs
    }

    /// What the backend supplies to a build of `manifest`.
    pub fn resolve(&self, manifest: &Manifest) -> (paths: PackagePathSet)
        ensures
            paths.deep_view() == self.deep_view().resolve(manifest.deep_view()),
    {
        let link_libs = match self.manager_type {
            PackageManagerType::Vcpkg => manifest.link_libraries(),
            PackageManagerType::Ppargo => {
                let none: Vec<String> = Vec::new();
                assert(none.deep_view() =~= Seq::<Seq<char>>::empty());
                none
            },
        };
        let triplet = match &self.triplet {
            Some(name) => Some(name.clone()),
            None => None,
        };
        PackagePathSet {
            include_dirs: self.get_include_path(),
            lib_dirs: self.get_lib_paths(),
            link_libs,
            triplet,
        }
    }
}

} // verus!
