//! What a new project starts with.

use crate::manifest::{
    DependencyEntryModel, Features, FeaturesModel, Manifest, ManifestModel,
    Package, PackageManagerType, PackageModel, Toolchain, ToolchainModel,
};
use vstd::prelude::*;

verus! {

/// The manifest of a new project named `name`.
pub open spec fn new_manifest(name: Seq<char>) -> ManifestModel {
    ManifestModel {
        package: PackageModel { name, version: "0.1.0"@, edition: "cpp17"@ },
        dependencies: Seq::empty(),
        toolchain: ToolchainModel { compiler: "clang"@, linker: "lld"@ },
        features: FeaturesModel {
            packages: false,
            package_manager: PackageManagerType::Ppargo,
            vcpkg_root: None,
        },
    }
}

/// The text of the first source file of a new project.
pub open spec fn main_template() -> Seq<char> {
    "#include <iostream>\n\nint main() {\n    std::cout << \"Hello, world!\" << std::endl;\n    return 0;\n}"@
}

/// The text of the ignore file of a new project.
pub open spec fn gitignore_template() -> Seq<char> {
    "/target"@
}

/// Makes the manifest of a new project named `name`: version `0.1.0`, the
/// default edition and toolchain, no dependency and no package backend.
pub fn crate_manifest(name: &str) -> (manifest: Manifest)
    ensures
        manifest.deep_view() == new_manifest(name@),
        manifest.wf(),
{
    let manifest = Manifest {
        package: Package {
            name: name.to_string(),
            version: "0.1.0".to_string(),
            edition: "cpp17".to_string(),
        },
        dependencies: Vec::new(),
        toolchain: Toolchain::default(),
        features: Features::default(),
    };
    assert(manifest.dependencies.deep_view() =~= Seq::<DependencyEntryModel>::empty());
    manifest
}

/// The text of the first source file of a new project.
pub fn get_main_template() -> (text: &'static str)
    ensures
        text@ == main_template(),
{
    "#include <iostream>\n\nint main() {\n    std::cout << \"Hello, world!\" << std::endl;\n    return 0;\n}"
}

/// The text of the ignore file of a new project.
pub fn get_gitignore_template() -> (text: &'static str)
    ensures
        text@ == gitignore_template(),
{
    "/target"
}

} // verus!
