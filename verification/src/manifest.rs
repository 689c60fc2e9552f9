//! The project manifest: what a build reads of `ppargo.toml`.
//!
//! The dependency table is a list of entries in which no name occurs twice.

use crate::text::{copy_strings, equal};
use vstd::prelude::*;

verus! {

/// Which package backend serves the project.
#[derive(Clone, Copy, Debug, PartialEq, Eq, Structural)]
pub enum PackageManagerType {
    /// The built-in backend, which supplies no path and no library.
    Ppargo,
    /// A vcpkg installation tree.
    Vcpkg,
}

/// A dependency written as a table: a version and the libraries to link.
#[derive(Debug)]
pub struct DependencyDetail {
    pub version: String,
    pub libs: Vec<String>,
}

/// What the manifest says of one dependency.
#[derive(Debug)]
pub enum Dependency {
    /// A version alone.
    Simple(String),
    /// A version with the names of the libraries to link.
    Detailed(DependencyDetail),
}

/// One line of the dependency table.
#[derive(Debug)]
pub struct DependencyEntry {
    pub name: String,
    pub dependency: Dependency,
}

/// The `[package]` table.
#[derive(Debug)]
pub struct Package {
    pub name: String,
    pub version: String,
    pub edition: String,
}

/// The `[toolchain]` table.
#[derive(Debug)]
pub struct Toolchain {
    pub compiler: String,
    pub linker: String,
}

/// The `[features]` table.
#[derive(Debug)]
pub struct Features {
    pub packages: bool,
    pub package_manager: PackageManagerType,
    pub vcpkg_root: Option<String>,
}

/// The `[build]` table. It has no key yet.
#[derive(Clone, Copy, Debug, PartialEq, Eq, Structural)]
pub struct BuildConfig {
}

/// A whole manifest.
#[derive(Debug)]
pub struct Manifest {
    pub package: Package,
    pub dependencies: Vec<DependencyEntry>,
    pub toolchain: Toolchain,
    pub features: Features,
}

/// What a `DependencyDetail` holds, as mathematical values.
pub struct DependencyDetailModel {
    pub version: Seq<char>,
    pub libs: Seq<Seq<char>>,
}

/// What a `Dependency` holds, as mathematical values.
pub enum DependencyModel {
    Simple(Seq<char>),
    Detailed(DependencyDetailModel),
}

/// What a `DependencyEntry` holds, as mathematical values.
pub struct DependencyEntryModel {
    pub name: Seq<char>,
    pub dependency: DependencyModel,
}

/// What a `Package` holds, as mathematical values.
pub struct PackageModel {
    pub name: Seq<char>,
    pub version: Seq<char>,
    pub edition: Seq<char>,
}

/// What a `Toolchain` holds, as mathematical values.
pub struct ToolchainModel {
    pub compiler: Seq<char>,
    pub linker: Seq<char>,
}

/// What a `Features` holds, as mathematical values.
pub struct FeaturesModel {
    pub packages: bool,
    pub package_manager: PackageManagerType,
    pub vcpkg_root: Option<Seq<char>>,
}

/// What a `Manifest` holds, as mathematical values.
pub struct ManifestModel {
    pub package: PackageModel,
    pub dependencies: Seq<DependencyEntryModel>,
    pub toolchain: ToolchainModel,
    pub features: FeaturesModel,
}

impl DeepView for DependencyDetail {
    type V = DependencyDetailModel;

    open spec fn deep_view(&self) -> DependencyDetailModel {
        DependencyDetailModel { version: self.version@, libs: self.libs.deep_view() }
    }
}

impl DeepView for Dependency {
    type V = DependencyModel;

    open spec fn deep_view(&self) -> DependencyModel {
        match self {
            Dependency::Simple(version) => DependencyModel::Simple(version@),
            Dependency::Detailed(detail) => DependencyModel::Detailed(detail.deep_view()),
        }
    }
}

impl DeepView for DependencyEntry {
    type V = DependencyEntryModel;

    open spec fn deep_view(&self) -> DependencyEntryModel {
        DependencyEntryModel { name: self.name@, dependency: self.dependency.deep_view() }
    }
}

impl DeepView for Package {
    type V = PackageModel;

    open spec fn deep_view(&self) -> PackageModel {
        PackageModel { name: self.name@, version: self.version@, edition: self.edition@ }
    }
}

impl DeepView for Toolchain {
    type V = ToolchainModel;

    open spec fn deep_view(&self) -> ToolchainModel {
        ToolchainModel { compiler: self.compiler@, linker: self.linker@ }
    }
}

impl DeepView for Features {
    type V = FeaturesModel;

    open spec fn deep_view(&self) -> FeaturesModel {
        FeaturesModel {
            packages: self.packages,
            package_manager: self.package_manager,
            vcpkg_root: self.vcpkg_root.deep_view(),
        }
    }
}

impl DeepView for Manifest {
    type V = ManifestModel;

    open spec fn deep_view(&self) -> ManifestModel {
        ManifestModel {
            package: self.package.deep_view(),
            dependencies: self.dependencies.deep_view(),
            toolchain: self.toolchain.deep_view(),
            features: self.features.deep_view(),
        }
    }
}

/// Position of the entry named `name`, or `-1` where there is none.
pub open spec fn position_of(deps: Seq<DependencyEntryModel>, name: Seq<char>) -> int
    decreases deps.len(),
{
    if deps.len() == 0 {
        -1
    } else if position_of(deps.drop_last(), name) >= 0 {
        position_of(deps.drop_last(), name)
    } else if deps.last().name == name {
        deps.len() - 1
    } else {
        -1
    }
}

/// Whether no name occurs twice in `deps`.
pub open spec fn distinct_names(deps: Seq<DependencyEntryModel>) -> bool {
    forall|i: int, j: int|
        0 <= i < j < deps.len() ==> (#[trigger] deps[i]).name != (#[trigger] deps[j]).name
}

/// The libraries that one dependency asks to link: the ones it lists, or
/// a library of its own name where it lists none.
pub open spec fn libraries_of(entry: DependencyEntryModel) -> Seq<Seq<char>> {
    match entry.dependency {
        DependencyModel::Simple(_) => seq![entry.name],
        DependencyModel::Detailed(detail) => if detail.libs.len() == 0 {
            seq![entry.name]
        } else {
            detail.libs
        },
    }
}

/// The libraries that the dependencies ask to link, in the order of the
/// table.
pub open spec fn link_libraries(deps: Seq<DependencyEntryModel>) -> Seq<Seq<char>>
    decreases deps.len(),
{
    if deps.len() == 0 {
        Seq::empty()
    } else {
        link_libraries(deps.drop_last()) + libraries_of(deps.last())
    }
}

/// The names of the dependencies, in the order of the table.
pub open spec fn dependency_names(deps: Seq<DependencyEntryModel>) -> Seq<Seq<char>> {
    Seq::new(deps.len(), |i: int| deps[i].name)
}

/// `position_of` finds the first entry of that name.
pub proof fn lemma_position_of(deps: Seq<DependencyEntryModel>, name: Seq<char>)
    ensures
        -1 <= position_of(deps, name) < deps.len(),
        position_of(deps, name) >= 0 ==> deps[position_of(deps, name)].name == name,
        forall|k: int|
            0 <= k < deps.len() && (position_of(deps, name) < 0 || k < position_of(deps, name))
                ==> (#[trigger] deps[k]).name != name,
    decreases deps.len(),
{
    if deps.len() > 0 {
        let front = deps.drop_last();
        lemma_position_of(front, name);
        assert forall|k: int|
            0 <= k < deps.len() && (position_of(deps, name) < 0 || k < position_of(
                deps,
                name,
            )) implies (#[trigger] deps[k]).name != name by {
            if k < front.len() {
                assert(deps[k] == front[k]);
            }
        }
    }
}

/// The edition of a manifest that names none.
pub fn default_edition() -> (edition: String)
    ensures
        edition@ == "cpp17"@,
{
    "cpp17".to_string()
}

/// The compiler of a manifest that names none.
pub fn default_compiler() -> (compiler: String)
    ensures
        compiler@ == "clang"@,
{
    "clang".to_string()
}

/// The linker of a manifest that names none.
pub fn default_linker() -> (linker: String)
    ensures
        linker@ == "lld"@,
{
    "lld".to_string()
}

impl Default for Toolchain {
    fn default() -> (toolchain: Toolchain)
        ensures
            toolchain.deep_view() == (ToolchainModel { compiler: "clang"@, linker: "lld"@ }),
    {
        Toolchain { compiler: default_compiler(), linker: default_linker() }
    }
}

impl Default for Features {
    fn default() -> (features: Features)
        ensures
            features.deep_view() == (FeaturesModel {
                packages: false,
                package_manager: PackageManagerType::Ppargo,
                vcpkg_root: None,
            }),
    {
        Features { packages: false, package_manager: PackageManagerType::Ppargo, vcpkg_root: None }
    }
}

impl DependencyEntry {
    /// The libraries that this dependency asks to link.
    pub fn libraries(&self) -> (libs: Vec<String>)
        ensures
            libs.deep_view() == libraries_of(self.deep_view()),
    {
        let own_name = match &self.dependency {
            Dependency::Simple(_) => true,
            Dependency::Detailed(detail) => detail.libs.len() == 0,
        };
        if own_name {
            let mut libs: Vec<String> = Vec::new();
            libs.push(self.name.clone());
            assert(libs.deep_view() =~= seq![self.name@]);
            libs
        } else {
            match &self.dependency {
                Dependency::Simple(_) => Vec::new(),
                Dependency::Detailed(detail) => copy_strings(&detail.libs),
            }
        }
    }
}

impl Manifest {
    /// Whether the manifest is well formed: no dependency is named twice.
    pub open spec fn wf(&self) -> bool {
        distinct_names(self.deep_view().dependencies)
    }

    /// Tells whether the manifest is well formed.
    pub fn is_well_formed(&self) -> (yes: bool)
        ensures
            yes == self.wf(),
    {
        let ghost deps = self.deep_view().dependencies;
        let mut j: usize = 0;
        while j < self.dependencies.len()
            invariant
                j <= self.dependencies.len(),
                deps == self.deep_view().dependencies,
                forall|a: int, b: int|
                    0 <= a < b < j ==> (#[trigger] deps[a]).name != (#[trigger] deps[b]).name,
            decreases self.dependencies.len() - j,
        {
            let mut i: usize = 0;
            while i < j
                invariant
                    i <= j < self.dependencies.len(),
                    deps == self.deep_view().dependencies,
                    forall|a: int| 0 <= a < i ==> (#[trigger] deps[a]).name != deps[j as int].name,
                decreases j - i,
            {
                assert(deps[i as int].name == self.dependencies[i as int].name@);
                assert(deps[j as int].name == self.dependencies[j as int].name@);
                if equal(self.dependencies[i].name.as_str(), self.dependencies[j].name.as_str()) {
                    assert(deps[i as int].name == deps[j as int].name);
                    return false;
                }
                i += 1;
            }
            j += 1;
        }
        true
    }

    /// Position of the dependency named `name`.
    pub fn find_dependency(&self, name: &str) -> (at: Option<usize>)
        ensures
            match at {
                Some(i) => i == position_of(self.deep_view().dependencies, name@),
                None => position_of(self.deep_view().dependencies, name@) == -1,
            },
    {
        let ghost deps = self.deep_view().dependencies;
        let mut i: usize = 0;
        while i < self.dependencies.len()
            invariant
                i <= self.dependencies.len(),
                deps == self.deep_view().dependencies,
                position_of(deps.take(i as int), name@) == -1,
            decreases self.dependencies.len() - i,
        {
            proof {
                assert(deps.take(i + 1).drop_last() =~= deps.take(i as int));
                assert(deps.take(i + 1).last() == deps[i as int]);
                assert(deps[i as int].name == self.dependencies[i as int].name@);
            }
            if equal(self.dependencies[i].name.as_str(), name) {
                proof {
                    lemma_position_of(deps, name@);
                    lemma_position_of(deps.take(i as int), name@);
                    let found = position_of(deps, name@);
                    if found < 0 || found > i {
                        assert(deps[i as int].name != name@);
                    }
                    if 0 <= found < i {
                        assert(deps.take(i as int)[found] == deps[found]);
                    }
                }
                return Some(i);
            }
            i += 1;
        }
        assert(deps.take(i as int) =~= deps);
        None
    }

    /// The libraries that the dependencies ask to link, in the order of the
    /// table.
    pub fn link_libraries(&self) -> (libs: Vec<String>)
        ensures
            libs.deep_view() == link_libraries(self.deep_view().dependencies),
    {
        let ghost deps = self.deep_view().dependencies;
        let mut libs: Vec<String> = Vec::new();
        let mut i: usize = 0;
        while i < self.dependencies.len()
            invariant
                i <= self.dependencies.len(),
                deps == self.deep_view().dependencies,
                libs.deep_view() == link_libraries(deps.take(i as int)),
            decreases self.dependencies.len() - i,
        {
            let mut more = self.dependencies[i].libraries();
            let ghost before = libs.deep_view();
            let ghost added = more.deep_view();
            libs.append(&mut more);
            proof {
                assert(deps.take(i + 1).drop_last() =~= deps.take(i as int));
                assert(deps.take(i + 1).last() == deps[i as int]);
                assert(libs.deep_view() =~= before + added);
            }
            i += 1;
        }
        assert(deps.take(i as int) =~= deps);
        libs
    }

    /// Records that the project depends on `name` at `version`. An entry of
    /// that name is replaced where it stands; a new name goes to the end.
    pub fn add_dependency(&mut self, name: &str, version: &str)
        requires
            old(self).wf(),
        ensures
            final(self).wf(),
            final(self).deep_view().package == old(self).deep_view().package,
            final(self).deep_view().toolchain == old(self).deep_view().toolchain,
            final(self).deep_view().features == old(self).deep_view().features,
            final(self).deep_view().dependencies == ({
                let deps = old(self).deep_view().dependencies;
                let entry = DependencyEntryModel {
                    name: name@,
                    dependency: DependencyModel::Simple(version@),
                };
                if position_of(deps, name@) >= 0 {
                    deps.update(position_of(deps, name@), entry)
                } else {
                    deps.push(entry)
                }
            }),
    {
        let ghost deps = self.deep_view().dependencies;
        let entry = DependencyEntry {
            name: name.to_string(),
            dependency: Dependency::Simple(version.to_string()),
        };
        proof {
            lemma_position_of(deps, name@);
        }
        match self.find_dependency(name) {
            Some(i) => {
                self.dependencies[i] = entry;
                proof {
                    let after = self.deep_view().dependencies;
                    assert(after =~= deps.update(i as int, entry.deep_view()));
                    assert forall|a: int, b: int| 0 <= a < b < after.len() implies (
                    #[trigger] after[a]).name != (#[trigger] after[b]).name by {
                        assert(after[a].name == deps[a].name);
                        assert(after[b].name == deps[b].name);
                    }
                }
            },
            None => {
                self.dependencies.push(entry);
                proof {
                    let after = self.deep_view().dependencies;
                    assert(after =~= deps.push(entry.deep_view()));
                    assert forall|a: int, b: int| 0 <= a < b < after.len() implies (
                    #[trigger] after[a]).name != (#[trigger] after[b]).name by {
                        if b < deps.len() {
                            assert(after[a] == deps[a]);
                            assert(after[b] == deps[b]);
                        } else {
                            assert(after[a] == deps[a]);
                        }
                    }
                }
            },
        }
    }
}

} // verus!
