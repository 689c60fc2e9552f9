use ppargo::error::{BuildError, ConfigProblem};
use ppargo::fingerprint::{create_fingerprint, FileInfo, Fingerprint};
use ppargo::manifest::{
    default_compiler, default_edition, default_linker, BuildConfig, Dependency, DependencyDetail,
    DependencyEntry, Features, Manifest, PackageManagerType, Toolchain,
};
use ppargo::package::{PackageManager, PackagePathSet};
use ppargo::platform::detect_triplet;
use ppargo::profile::BuildProfile;
use ppargo::project::{find_manifest_candidates, Project};
use ppargo::templates::{crate_manifest, get_gitignore_template, get_main_template};
use ppargo::toolchain::{standard_flag, warning_flags, ToolchainConfig};
use ppargo::vcpkg::{
    holds_name, install_dependencies, merge_dependencies, parse_package_line,
    parse_package_list, search_package, search_results, PackageSearch, VcpkgManifest,
};

fn strings(items: &[&str]) -> Vec<String> {
    items.iter().map(|s| s.to_string()).collect()
}

fn simple(name: &str, version: &str) -> DependencyEntry {
    DependencyEntry { name: name.to_string(), dependency: Dependency::Simple(version.to_string()) }
}

fn detailed(name: &str, libs: &[&str]) -> DependencyEntry {
    DependencyEntry {
        name: name.to_string(),
        dependency: Dependency::Detailed(DependencyDetail {
            version: "1".to_string(),
            libs: strings(libs),
        }),
    }
}

fn names(manifest: &Manifest) -> Vec<String> {
    manifest.dependencies.iter().map(|entry| entry.name.clone()).collect()
}

#[test]
fn standard_flag_table() {
    assert_eq!(standard_flag("cpp20"), "-std=c++20");
    assert_eq!(standard_flag("cpp23"), "-std=c++23");
    assert_eq!(standard_flag("cpp26"), "-std=c++26");
    assert_eq!(standard_flag("cpp17"), "-std=c++17");
}

#[test]
fn unknown_edition_falls_back_to_the_oldest_standard() {
    for edition in ["", "cpp11", "c++20", "CPP20", "cpp200"] {
        assert_eq!(standard_flag(edition), "-std=c++17", "{:?}", edition);
    }
}

#[test]
fn warning_flags_are_fixed() {
    assert_eq!(warning_flags(), strings(&["-Wall", "-Wextra"]));
}

#[test]
fn toolchain_resolves_from_a_located_compiler() {
    let config = ToolchainConfig::resolve("clang", "cpp23", Some("/usr/bin/clang".to_string()))
        .unwrap();
    assert_eq!(config.compiler_executable, "/usr/bin/clang");
    assert_eq!(config.standard_flag, "-std=c++23");
    assert_eq!(config.warning_flags, strings(&["-Wall", "-Wextra"]));
    assert_eq!(
        config.base_flags(BuildProfile::Release),
        strings(&["-std=c++23", "-O3", "-Wall", "-Wextra"])
    );
    assert_eq!(
        config.base_flags(BuildProfile::Debug),
        strings(&["-std=c++23", "-O0", "-g", "-Wall", "-Wextra"])
    );
}

#[test]
fn toolchain_without_compiler_names_it() {
    match ToolchainConfig::resolve("g++-99", "cpp17", None) {
        Err(BuildError::ConfigError(ConfigProblem::CompilerNotFound { compiler })) => {
            assert_eq!(compiler, "g++-99")
        }
        other => panic!("unexpected: {:?}", other),
    }
}

#[test]
fn profile_flags_and_directories() {
    assert_eq!(BuildProfile::from_release_flag(true), BuildProfile::Release);
    assert_eq!(BuildProfile::from_release_flag(false), BuildProfile::Debug);
    assert!(BuildProfile::Release.is_release());
    assert!(!BuildProfile::Debug.is_release());
    assert_eq!(BuildProfile::Debug.dir_name(), "debug");
    assert_eq!(BuildProfile::Release.dir_name(), "release");
    assert_eq!(BuildProfile::Debug.compile_flags(), strings(&["-O0", "-g"]));
    assert_eq!(BuildProfile::Release.compile_flags(), strings(&["-O3"]));
    assert_eq!(BuildProfile::Release.link_flags(), strings(&["-s"]));
    assert_eq!(BuildProfile::Debug.link_flags(), Vec::<String>::new());
}

#[test]
fn triplet_table() {
    let table = [
        ("linux", "x86_64", "x64-linux"),
        ("linux", "aarch64", "arm64-linux"),
        ("macos", "x86_64", "x64-osx"),
        ("macos", "aarch64", "arm64-osx"),
        ("windows", "x86_64", "x64-windows"),
        ("windows", "aarch64", "arm64-windows"),
    ];
    for (os, arch, expected) in table {
        let triplet = detect_triplet(os, arch);
        assert_eq!(triplet.name, expected);
        assert_eq!(triplet.warning, None);
    }
}

#[test]
fn unknown_platform_gets_the_default_triplet_and_a_warning() {
    let triplet = detect_triplet("freebsd", "riscv64");
    assert_eq!(triplet.name, "x64-linux");
    assert_eq!(
        triplet.warning,
        Some("Warning: Unknown platform freebsd-riscv64, defaulting to x64-linux".to_string())
    );
    let half = detect_triplet("linux", "arm");
    assert_eq!(half.name, "x64-linux");
    assert!(half.warning.is_some());
    let empty = detect_triplet("", "");
    assert_eq!(empty.name, "x64-linux");
    assert_eq!(
        empty.warning,
        Some("Warning: Unknown platform -, defaulting to x64-linux".to_string())
    );
}

#[test]
fn manifest_defaults() {
    assert_eq!(default_edition(), "cpp17");
    assert_eq!(default_compiler(), "clang");
    assert_eq!(default_linker(), "lld");
    let toolchain = Toolchain::default();
    assert_eq!(toolchain.compiler, "clang");
    assert_eq!(toolchain.linker, "lld");
    let features = Features::default();
    assert!(!features.packages);
    assert_eq!(features.package_manager, PackageManagerType::Ppargo);
    assert_eq!(features.vcpkg_root, None);
    assert_eq!(BuildConfig {}, BuildConfig {});
}

#[test]
fn link_libraries_follow_the_table() {
    let mut manifest = crate_manifest("app");
    assert_eq!(manifest.link_libraries(), Vec::<String>::new());
    manifest.dependencies = vec![
        simple("fmt", "10"),
        detailed("boost", &["boost_system", "boost_thread"]),
        detailed("zlib", &[]),
    ];
    assert_eq!(
        manifest.link_libraries(),
        strings(&["fmt", "boost_system", "boost_thread", "zlib"])
    );
    assert_eq!(manifest.dependencies[1].libraries(), strings(&["boost_system", "boost_thread"]));
    assert_eq!(manifest.dependencies[2].libraries(), strings(&["zlib"]));
}

#[test]
fn add_dependency_appends_or_replaces() {
    let mut manifest = crate_manifest("app");
    manifest.add_dependency("fmt", "10.1");
    manifest.add_dependency("zlib", "1.3");
    assert_eq!(names(&manifest), strings(&["fmt", "zlib"]));
    assert_eq!(manifest.find_dependency("zlib"), Some(1));
    assert_eq!(manifest.find_dependency("curl"), None);
    manifest.dependencies[0] = detailed("fmt", &["fmtd"]);
    manifest.add_dependency("fmt", "11.0");
    assert_eq!(names(&manifest), strings(&["fmt", "zlib"]));
    match &manifest.dependencies[0].dependency {
        Dependency::Simple(version) => assert_eq!(version, "11.0"),
        other => panic!("unexpected: {:?}", other),
    }
    assert_eq!(manifest.package.name, "app");
}

#[test]
fn well_formed_manifests_name_no_dependency_twice() {
    let mut manifest = crate_manifest("app");
    assert!(manifest.is_well_formed());
    manifest.dependencies = vec![simple("fmt", "10"), simple("zlib", "1"), simple("curl", "8")];
    assert!(manifest.is_well_formed());
    manifest.dependencies.push(simple("zlib", "2"));
    assert!(!manifest.is_well_formed());
    manifest.dependencies = vec![simple("a", "1"), simple("a", "1")];
    assert!(!manifest.is_well_formed());
}

#[test]
fn new_project_manifest() {
    let manifest = crate_manifest("demo");
    assert_eq!(manifest.package.name, "demo");
    assert_eq!(manifest.package.version, "0.1.0");
    assert_eq!(manifest.package.edition, "cpp17");
    assert!(manifest.dependencies.is_empty());
    assert_eq!(manifest.toolchain.compiler, "clang");
    assert_eq!(manifest.toolchain.linker, "lld");
    assert!(!manifest.features.packages);
}

#[test]
fn templates() {
    assert_eq!(
        get_main_template(),
        "#include <iostream>\n\nint main() {\n    std::cout << \"Hello, world!\" << std::endl;\n    return 0;\n}"
    );
    assert_eq!(get_gitignore_template(), "/target");
}

#[test]
fn project_layout() {
    let project = Project { root: "/work/demo".to_string(), manifest: crate_manifest("demo") };
    assert_eq!(project.get_binary_name(false), "demo");
    assert_eq!(project.get_binary_name(true), "demo.exe");
    assert_eq!(project.get_build_dir("debug"), "/work/demo/target/debug");
    assert_eq!(project.get_build_dir("release"), "/work/demo/target/release");
    assert_eq!(project.get_source_dir(), "/work/demo/src");
    assert_eq!(project.get_binary_path("release", true), "/work/demo/target/release/demo.exe");
    assert_eq!(project.get_binary_path("debug", false), "/work/demo/target/debug/demo");
}

#[test]
fn manifest_is_looked_for_upwards() {
    assert_eq!(
        find_manifest_candidates("/home/u/proj/src"),
        strings(&[
            "/home/u/proj/src/ppargo.toml",
            "/home/u/proj/ppargo.toml",
            "/home/u/ppargo.toml",
            "/home/ppargo.toml",
            "/ppargo.toml",
        ])
    );
    assert_eq!(find_manifest_candidates("proj"), strings(&["proj/ppargo.toml", "ppargo.toml"]));
    assert_eq!(find_manifest_candidates(""), strings(&["ppargo.toml"]));
    assert_eq!(find_manifest_candidates("/"), strings(&["/ppargo.toml"]));
}

#[test]
fn builtin_backend_supplies_nothing() {
    let mut manifest = crate_manifest("app");
    manifest.dependencies = vec![simple("fmt", "10")];
    let manager = PackageManager::new("/proj", &manifest, "linux", "x86_64").unwrap();
    assert_eq!(manager.manager_type, PackageManagerType::Ppargo);
    assert_eq!(manager.vcpkg_root, None);
    assert_eq!(manager.triplet, None);
    assert_eq!(manager.project_root, "/proj");
    assert_eq!(manager.get_include_path(), Vec::<String>::new());
    assert_eq!(manager.get_lib_paths(), Vec::<String>::new());
    let paths = manager.resolve(&manifest);
    assert!(paths.include_dirs.is_empty());
    assert!(paths.lib_dirs.is_empty());
    assert!(paths.link_libs.is_empty());
    assert_eq!(paths.triplet, None);
    assert!(manager.install_dependencies(&manifest).is_ok());
    let none = PackagePathSet::none();
    assert!(none.include_dirs.is_empty() && none.lib_dirs.is_empty() && none.link_libs.is_empty());
}

#[test]
fn vcpkg_backend_supplies_its_tree() {
    let mut manifest = crate_manifest("app");
    manifest.features.package_manager = PackageManagerType::Vcpkg;
    manifest.features.vcpkg_root = Some("/opt/vcpkg".to_string());
    manifest.dependencies = vec![simple("fmt", "10"), detailed("sdl", &["SDL2", "SDL2main"])];
    let manager = PackageManager::new("/proj", &manifest, "macos", "aarch64").unwrap();
    assert_eq!(manager.triplet, Some("arm64-osx".to_string()));
    assert_eq!(manager.warning, None);
    assert_eq!(manager.get_include_path(), strings(&["/opt/vcpkg/include"]));
    assert_eq!(manager.get_lib_paths(), strings(&["/opt/vcpkg/arm64-osx/lib"]));
    let paths = manager.resolve(&manifest);
    assert_eq!(paths.include_dirs, strings(&["/opt/vcpkg/include"]));
    assert_eq!(paths.lib_dirs, strings(&["/opt/vcpkg/arm64-osx/lib"]));
    assert_eq!(paths.link_libs, strings(&["fmt", "SDL2", "SDL2main"]));
    assert_eq!(paths.triplet, Some("arm64-osx".to_string()));
    assert!(manager.install_dependencies(&manifest).is_ok());
}

#[test]
fn vcpkg_backend_on_an_unknown_platform_warns() {
    let mut manifest = crate_manifest("app");
    manifest.features.package_manager = PackageManagerType::Vcpkg;
    manifest.features.vcpkg_root = Some("/opt/vcpkg".to_string());
    let manager = PackageManager::new("/proj", &manifest, "haiku", "x86_64").unwrap();
    assert_eq!(manager.triplet, Some("x64-linux".to_string()));
    assert_eq!(
        manager.warning,
        Some("Warning: Unknown platform haiku-x86_64, defaulting to x64-linux".to_string())
    );
    assert_eq!(manager.get_lib_paths(), strings(&["/opt/vcpkg/x64-linux/lib"]));
}

#[test]
fn vcpkg_backend_needs_a_root() {
    let mut manifest = crate_manifest("app");
    manifest.features.package_manager = PackageManagerType::Vcpkg;
    assert!(matches!(
        PackageManager::new("/proj", &manifest, "linux", "x86_64"),
        Err(BuildError::ConfigError(ConfigProblem::PackageRootUnset))
    ));
}

#[test]
fn fingerprint_starts_empty() {
    let fingerprint = Fingerprint::new("clang 18.1".to_string());
    assert!(fingerprint.files.is_empty());
    assert_eq!(fingerprint.compiler_version, "clang 18.1");
    assert!(create_fingerprint(&crate_manifest("app")).is_ok());
    let info = FileInfo { modified: 5, size: 7 };
    assert_eq!(info, FileInfo { modified: 5, size: 7 });
}

#[test]
fn package_line_with_description() {
    let package = parse_package_line("fmt      10.1.1   A modern   formatting library ").unwrap();
    assert_eq!(package.name, "fmt");
    assert_eq!(package.version, "10.1.1");
    assert_eq!(package.description, Some("A modern formatting library".to_string()));
}

#[test]
fn package_line_without_description() {
    let package = parse_package_line("zlib 1.3").unwrap();
    assert_eq!(package.name, "zlib");
    assert_eq!(package.version, "1.3");
    assert_eq!(package.description, None);
}

#[test]
fn lines_that_name_no_package() {
    assert!(parse_package_line("").is_none());
    assert!(parse_package_line("   ").is_none());
    assert!(parse_package_line("fmt").is_none());
    assert!(parse_package_line("The result may be outdated.").is_none());
    assert!(parse_package_line("fmt[core] v10 description").is_none());
}

#[test]
fn package_list_of_a_search() {
    let output = "fmt   10.1.1  Formatting library\r\n\r\nfmt[extra]   extra parts\nzlib 1.3#1\nThe result may be outdated. Run `git pull` to get the latest results.\n";
    let packages = parse_package_list(output);
    assert_eq!(packages.len(), 2);
    assert_eq!(packages[0].name, "fmt");
    assert_eq!(packages[0].version, "10.1.1");
    assert_eq!(packages[0].description, Some("Formatting library".to_string()));
    assert_eq!(packages[1].name, "zlib");
    assert_eq!(packages[1].version, "1.3#1");
    assert_eq!(packages[1].description, None);
    assert!(parse_package_list("").is_empty());
}

#[test]
fn search_plans() {
    match search_package(PackageManagerType::Ppargo, "fmt") {
        PackageSearch::Done { packages } => assert!(packages.is_empty()),
        other => panic!("unexpected: {:?}", other),
    }
    match search_package(PackageManagerType::Vcpkg, "fmt") {
        PackageSearch::Run { arguments } => {
            assert_eq!(arguments, strings(&["search", "fmt", "--x-full-desc"]))
        }
        other => panic!("unexpected: {:?}", other),
    }
}

#[test]
fn search_results_of_a_run() {
    let found = search_results("fmt", true, "fmt 10.1.1 text\n").unwrap();
    assert_eq!(found.len(), 1);
    assert_eq!(found[0].version, "10.1.1");
    match search_results("fmt", false, "fmt 10.1.1 text\n") {
        Err(BuildError::IoError { detail }) => {
            assert_eq!(detail, "Failed to search for package 'fmt'")
        }
        other => panic!("unexpected: {:?}", other),
    }
}

#[test]
fn install_plans() {
    let mut manifest = crate_manifest("app");
    assert!(install_dependencies(&manifest, "/proj", "x64-linux").is_none());
    manifest.features.package_manager = PackageManagerType::Vcpkg;
    let plan = install_dependencies(&manifest, "/proj", "x64-linux").unwrap();
    assert_eq!(plan.manifest_path, "/proj/vcpkg.json");
    assert_eq!(
        plan.arguments,
        strings(&[
            "install",
            "--x-manifest-root",
            "/proj",
            "--x-install-root",
            "/proj/packages",
            "--triplet",
            "x64-linux",
        ])
    );
}

#[test]
fn vcpkg_executable_path() {
    let vcpkg = VcpkgManifest { exe_root: "/opt/vcpkg".to_string() };
    assert_eq!(vcpkg.vcpkg_exe(false), "/opt/vcpkg/vcpkg");
    assert_eq!(vcpkg.vcpkg_exe(true), "/opt/vcpkg/vcpkg.exe");
}

#[test]
fn merge_adds_what_is_lacking() {
    let mut manifest = crate_manifest("app");
    manifest.dependencies = vec![simple("zlib", "1"), simple("fmt", "10"), simple("curl", "8")];
    assert_eq!(
        merge_dependencies(&strings(&["fmt", "sdl2"]), &manifest),
        strings(&["fmt", "sdl2", "zlib", "curl"])
    );
    assert_eq!(merge_dependencies(&Vec::new(), &manifest), strings(&["zlib", "fmt", "curl"]));
    assert!(holds_name(&strings(&["a", "b"]), "b"));
    assert!(!holds_name(&strings(&["a", "b"]), "c"));
}

#[test]
fn error_messages() {
    assert_eq!(
        BuildError::MissingSourceDirectory { path: "/proj/src".to_string() }.message(),
        "Source directory '/proj/src' does not exist"
    );
    assert_eq!(BuildError::EmptySourceSet.message(), "No source files found in src/");
    assert_eq!(BuildError::IoError { detail: "disk full".to_string() }.message(), "disk full");
    assert_eq!(
        BuildError::CompileError {
            source_path: "src/a.cpp".to_string(),
            stderr: "a.cpp:1: error\n".to_string()
        }
        .message(),
        "Error compiling src/a.cpp:\na.cpp:1: error\n"
    );
    assert_eq!(
        BuildError::LinkError { stderr: "ld: fail".to_string() }.message(),
        "Linker Error:\nld: fail"
    );
    assert_eq!(
        ConfigProblem::CompilerNotFound { compiler: "icc".to_string() }.message(),
        "Compiler 'icc' not found in PATH"
    );
    assert!(!BuildError::EmptySourceSet.is_config_error());
    assert!(BuildError::ConfigError(ConfigProblem::PackageRootUnset).is_config_error());
}
