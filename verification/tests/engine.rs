use ppargo::compile::{conclude_compilation, find_first_failure, objects_to_discard, ToolOutput};
use ppargo::engine::{find_first_missing, stale_units, BuildManager, BuildPhase, BuildSession};
use ppargo::error::{BuildError, ConfigProblem};
use ppargo::link::LinkSpec;
use ppargo::manifest::{
    Dependency, DependencyDetail, DependencyEntry, Features, Manifest, Package,
    PackageManagerType, Toolchain,
};
use ppargo::profile::BuildProfile;
use ppargo::project::Project;
use ppargo::sources::{
    collect_units, has_source_extension, select_sources, CompilationUnit, WalkEntry,
};
use ppargo::staleness::Verdict;

fn strings(items: &[&str]) -> Vec<String> {
    items.iter().map(|s| s.to_string()).collect()
}

fn manifest(name: &str, edition: &str) -> Manifest {
    Manifest {
        package: Package {
            name: name.to_string(),
            version: "0.1.0".to_string(),
            edition: edition.to_string(),
        },
        dependencies: Vec::new(),
        toolchain: Toolchain { compiler: "clang".to_string(), linker: "lld".to_string() },
        features: Features {
            packages: false,
            package_manager: PackageManagerType::Ppargo,
            vcpkg_root: None,
        },
    }
}

fn project(root: &str) -> Project {
    Project { root: root.to_string(), manifest: manifest("hello", "cpp20") }
}

fn file(path: &str) -> WalkEntry {
    WalkEntry { path: path.to_string(), is_file: true }
}

fn dir(path: &str) -> WalkEntry {
    WalkEntry { path: path.to_string(), is_file: false }
}

fn ok() -> ToolOutput {
    ToolOutput { success: true, stderr: String::new() }
}

fn failed(stderr: &str) -> ToolOutput {
    ToolOutput { success: false, stderr: stderr.to_string() }
}

fn three_units() -> Vec<WalkEntry> {
    vec![
        dir("/proj/src"),
        file("/proj/src/a.cpp"),
        file("/proj/src/b.cpp"),
        dir("/proj/src/sub"),
        file("/proj/src/sub/c.cc"),
        file("/proj/src/notes.txt"),
    ]
}

fn probing(project: &Project) -> BuildSession {
    let manager =
        BuildManager::with_compiler(project, Some("/usr/bin/clang".to_string()), "linux", "x86_64")
            .unwrap();
    let mut session = manager.begin(BuildProfile::Debug, false);
    session.sources_listed(Some(three_units()));
    session
}

#[test]
fn source_extensions() {
    for path in ["a.c", "a.cpp", "a.cc", "a.cxx", "src/deep/x.y.cpp"] {
        assert!(has_source_extension(path), "{}", path);
    }
    for path in ["a.h", "a.hpp", "a.C", "a.CPP", "a", "cpp", ".cpp", "a.cpp.bak", "a.o", "a."] {
        assert!(!has_source_extension(path), "{}", path);
    }
}

#[test]
fn select_sources_keeps_source_files_in_walk_order() {
    let mut entries = three_units();
    entries.push(dir("/proj/src/odd.cpp"));
    assert_eq!(
        select_sources(&entries),
        strings(&["/proj/src/a.cpp", "/proj/src/b.cpp", "/proj/src/sub/c.cc"])
    );
    assert_eq!(select_sources(&Vec::new()), Vec::<String>::new());
}

#[test]
fn unit_paths_mirror_the_relative_path() {
    let unit = CompilationUnit::new("/proj/src/a/b.cpp", "/proj");
    assert_eq!(unit.source_path, "/proj/src/a/b.cpp");
    assert_eq!(unit.relative_path, "src/a/b.cpp");
    assert_eq!(unit.object_path("/proj/target/debug/obj"), "/proj/target/debug/obj/src/a/b.o");
    assert_eq!(unit.depfile_path("/proj/target/debug/obj"), "/proj/target/debug/obj/src/a/b.d");
}

#[test]
fn object_path_does_not_depend_on_where_the_project_is() {
    let here = CompilationUnit::new("/home/u/proj/src/a/b.cpp", "/home/u/proj");
    let there = CompilationUnit::new("/tmp/x/src/a/b.cpp", "/tmp/x");
    assert_eq!(here.relative_path, there.relative_path);
    assert_eq!(here.object_path("target/release/obj"), "target/release/obj/src/a/b.o");
    assert_eq!(there.object_path("target/release/obj"), "target/release/obj/src/a/b.o");
}

#[test]
fn object_path_beneath_a_source_root() {
    let unit = CompilationUnit::new("/proj/src/a/b.cpp", "/proj/src");
    assert_eq!(unit.relative_path, "a/b.cpp");
    assert_eq!(unit.object_path("target/debug/obj"), "target/debug/obj/a/b.o");
    assert_eq!(unit.depfile_path("target/debug/obj"), "target/debug/obj/a/b.d");
}

#[test]
fn source_outside_the_root_keeps_its_own_path() {
    let unit = CompilationUnit::new("/elsewhere/x.cpp", "/proj");
    assert_eq!(unit.relative_path, "/elsewhere/x.cpp");
    assert_eq!(unit.object_path("/proj/target/debug/obj"), "/elsewhere/x.o");
}

#[test]
fn collect_units_refuses_an_empty_set() {
    assert!(matches!(collect_units(&Vec::new(), "/proj"), Err(BuildError::EmptySourceSet)));
    let units = collect_units(&strings(&["/proj/src/a.cpp"]), "/proj").unwrap();
    assert_eq!(units.len(), 1);
    assert_eq!(units[0].relative_path, "src/a.cpp");
}

#[test]
fn missing_compiler_is_a_config_error() {
    let project = Project {
        root: "/proj".to_string(),
        manifest: Manifest {
            toolchain: Toolchain {
                compiler: "no-such-compiler-on-any-path-7f3a".to_string(),
                linker: "lld".to_string(),
            },
            ..manifest("hello", "cpp17")
        },
    };
    match BuildManager::new(&project, "linux", "x86_64") {
        Err(BuildError::ConfigError(ConfigProblem::CompilerNotFound { compiler })) => {
            assert_eq!(compiler, "no-such-compiler-on-any-path-7f3a");
        }
        other => panic!("unexpected: {:?}", other.map(|_| ())),
    }
}

#[test]
fn compiler_that_was_not_located_is_a_config_error() {
    let project = project("/proj");
    let refused = BuildManager::with_compiler(&project, None, "linux", "x86_64").unwrap_err();
    assert_eq!(refused.message(), "Compiler 'clang' not found in PATH");
    assert!(refused.is_config_error());
}

#[test]
fn backend_without_root_is_a_config_error() {
    let mut project = project("/proj");
    project.manifest.features.packages = true;
    project.manifest.features.package_manager = PackageManagerType::Vcpkg;
    let refused =
        BuildManager::with_compiler(&project, Some("/usr/bin/clang".to_string()), "linux", "x86_64")
            .unwrap_err();
    assert!(matches!(refused, BuildError::ConfigError(ConfigProblem::PackageRootUnset)));
    assert_eq!(refused.message(), "vcpkg_root must be specified in features when using vcpkg");
}

#[test]
fn context_of_a_debug_build() {
    let project = project("/proj");
    let manager =
        BuildManager::with_compiler(&project, Some("/usr/bin/clang".to_string()), "linux", "x86_64")
            .unwrap();
    assert_eq!(manager.get_build_dir("debug"), "/proj/target/debug");
    assert_eq!(manager.get_binary_name(false), "hello");
    assert_eq!(manager.get_binary_name(true), "hello.exe");
    let context = manager.context(BuildProfile::Debug, false);
    assert_eq!(context.compiler, "/usr/bin/clang");
    assert_eq!(context.flags, strings(&["-std=c++20", "-O0", "-g", "-Wall", "-Wextra"]));
    assert_eq!(context.include_paths, Vec::<String>::new());
    assert_eq!(context.lib_paths, Vec::<String>::new());
    assert_eq!(context.link_libs, Vec::<String>::new());
    assert_eq!(context.build_dir, "/proj/target/debug");
    assert_eq!(context.obj_root, "/proj/target/debug/obj");
    assert_eq!(context.output_path, "/proj/target/debug/hello");
}

#[test]
fn context_of_a_release_build_with_packages() {
    let mut project = project("/proj");
    project.manifest.package.edition = "unknown".to_string();
    project.manifest.features = Features {
        packages: true,
        package_manager: PackageManagerType::Vcpkg,
        vcpkg_root: Some("/opt/vcpkg".to_string()),
    };
    project.manifest.dependencies = vec![
        DependencyEntry { name: "fmt".to_string(), dependency: Dependency::Simple("10".to_string()) },
        DependencyEntry {
            name: "boost".to_string(),
            dependency: Dependency::Detailed(DependencyDetail {
                version: "1.84".to_string(),
                libs: strings(&["boost_system", "boost_thread"]),
            }),
        },
    ];
    let manager = BuildManager::with_compiler(
        &project,
        Some("C:/llvm/clang.exe".to_string()),
        "windows",
        "x86_64",
    )
    .unwrap();
    let context = manager.context(BuildProfile::Release, true);
    assert_eq!(context.flags, strings(&["-std=c++17", "-O3", "-Wall", "-Wextra"]));
    assert_eq!(context.include_paths, strings(&["/opt/vcpkg/include"]));
    assert_eq!(context.lib_paths, strings(&["/opt/vcpkg/x64-windows/lib"]));
    assert_eq!(context.link_libs, strings(&["fmt", "boost_system", "boost_thread"]));
    assert_eq!(context.output_path, "/proj/target/release/hello.exe");
}

#[test]
fn session_starts_by_collecting() {
    let project = project("/proj");
    let manager =
        BuildManager::with_compiler(&project, Some("/usr/bin/clang".to_string()), "linux", "x86_64")
            .unwrap();
    let session = manager.begin(BuildProfile::Debug, false);
    assert_eq!(session.phase, BuildPhase::Collecting);
    assert_eq!(session.source_dir, "/proj/src");
    assert!(session.directories.is_empty());
    assert!(!session.is_finished());
}

#[test]
fn missing_source_directory_ends_the_build() {
    let project = project("/proj");
    let manager =
        BuildManager::with_compiler(&project, Some("/usr/bin/clang".to_string()), "linux", "x86_64")
            .unwrap();
    let mut session = manager.begin(BuildProfile::Debug, false);
    session.sources_listed(None);
    assert_eq!(session.phase, BuildPhase::Failed);
    match session.into_outcome().unwrap() {
        Err(BuildError::MissingSourceDirectory { path }) => assert_eq!(path, "/proj/src"),
        other => panic!("unexpected: {:?}", other),
    }
}

#[test]
fn empty_source_directory_fails_before_any_compilation() {
    let project = project("/proj");
    let manager =
        BuildManager::with_compiler(&project, Some("/usr/bin/clang".to_string()), "linux", "x86_64")
            .unwrap();
    let mut session = manager.begin(BuildProfile::Debug, false);
    session.sources_listed(Some(vec![dir("/proj/src"), file("/proj/src/readme.md")]));
    assert_eq!(session.phase, BuildPhase::Failed);
    assert!(session.jobs.is_empty());
    assert!(session.directories.is_empty());
    let error = session.into_outcome().unwrap().unwrap_err();
    assert!(matches!(error, BuildError::EmptySourceSet));
    assert_eq!(error.message(), "No source files found in src/");
}

#[test]
fn listing_leads_to_probing() {
    let project = project("/proj");
    let session = probing(&project);
    assert_eq!(session.phase, BuildPhase::Probing);
    assert_eq!(session.units.len(), 3);
    assert_eq!(session.units[2].relative_path, "src/sub/c.cc");
    assert_eq!(
        session.directories,
        strings(&[
            "/proj/target/debug",
            "/proj/target/debug/obj",
            "/proj/target/debug/obj/src",
            "/proj/target/debug/obj/src",
            "/proj/target/debug/obj/src/sub",
        ])
    );
    let probe = session.probe(2);
    assert_eq!(probe.source, "/proj/src/sub/c.cc");
    assert_eq!(probe.object, "/proj/target/debug/obj/src/sub/c.o");
    assert_eq!(probe.depfile, "/proj/target/debug/obj/src/sub/c.d");
}

#[test]
fn stale_units_get_jobs_in_order() {
    let project = project("/proj");
    let mut session = probing(&project);
    session.verdicts_in(&vec![Verdict::Stale, Verdict::Fresh, Verdict::Stale]);
    assert_eq!(session.phase, BuildPhase::Compiling);
    assert_eq!(session.jobs.len(), 2);
    let first = &session.jobs[0];
    assert_eq!(first.source_path, "/proj/src/a.cpp");
    assert_eq!(first.object_path, "/proj/target/debug/obj/src/a.o");
    assert_eq!(first.depfile_path, "/proj/target/debug/obj/src/a.d");
    assert_eq!(first.program, "/usr/bin/clang");
    assert_eq!(
        first.arguments,
        strings(&[
            "-c",
            "/proj/src/a.cpp",
            "-o",
            "/proj/target/debug/obj/src/a.o",
            "-std=c++20",
            "-O0",
            "-g",
            "-Wall",
            "-Wextra",
            "-MMD",
            "-MF",
            "/proj/target/debug/obj/src/a.d",
        ])
    );
    assert_eq!(session.jobs[1].source_path, "/proj/src/sub/c.cc");
}

#[test]
fn include_directories_reach_the_compiler() {
    let mut project = project("/proj");
    project.manifest.features = Features {
        packages: true,
        package_manager: PackageManagerType::Vcpkg,
        vcpkg_root: Some("/opt/vcpkg".to_string()),
    };
    let mut session = probing(&project);
    session.verdicts_in(&vec![Verdict::Fresh, Verdict::Stale, Verdict::Fresh]);
    assert_eq!(session.jobs.len(), 1);
    assert_eq!(
        session.jobs[0].arguments,
        strings(&[
            "-c",
            "/proj/src/b.cpp",
            "-o",
            "/proj/target/debug/obj/src/b.o",
            "-std=c++20",
            "-O0",
            "-g",
            "-Wall",
            "-Wextra",
            "-I/opt/vcpkg/include",
            "-MMD",
            "-MF",
            "/proj/target/debug/obj/src/b.d",
        ])
    );
}

#[test]
fn fresh_build_compiles_nothing_and_links() {
    let project = project("/proj");
    let mut session = probing(&project);
    session.verdicts_in(&vec![Verdict::Fresh, Verdict::Fresh, Verdict::Fresh]);
    assert_eq!(session.phase, BuildPhase::Linking);
    assert!(session.jobs.is_empty());
    let link = session.link_spec();
    assert_eq!(
        link.object_files,
        strings(&[
            "/proj/target/debug/obj/src/a.o",
            "/proj/target/debug/obj/src/b.o",
            "/proj/target/debug/obj/src/sub/c.o",
        ])
    );
    session.linked(&ok());
    assert_eq!(session.phase, BuildPhase::Succeeded);
    assert_eq!(session.into_outcome().unwrap().unwrap(), "/proj/target/debug/hello");
}

#[test]
fn missing_source_ends_the_build() {
    let project = project("/proj");
    let mut session = probing(&project);
    session.verdicts_in(&vec![Verdict::Stale, Verdict::SourceMissing, Verdict::SourceMissing]);
    assert_eq!(session.phase, BuildPhase::Failed);
    match session.into_outcome().unwrap() {
        Err(BuildError::IoError { detail }) => {
            assert_eq!(detail, "Source file not found: /proj/src/b.cpp")
        }
        other => panic!("unexpected: {:?}", other),
    }
}

#[test]
fn one_failure_among_three_stops_before_the_link() {
    let project = project("/proj");
    let mut session = probing(&project);
    session.verdicts_in(&vec![Verdict::Stale, Verdict::Stale, Verdict::Stale]);
    assert_eq!(session.jobs.len(), 3);
    session.compiled(&vec![ok(), failed("b.cpp:3: error: expected ';'"), ok()]);
    assert_eq!(session.phase, BuildPhase::Failed);
    assert_eq!(session.discard, strings(&["/proj/target/debug/obj/src/b.o"]));
    match session.into_outcome().unwrap() {
        Err(BuildError::CompileError { source_path, stderr }) => {
            assert_eq!(source_path, "/proj/src/b.cpp");
            assert_eq!(stderr, "b.cpp:3: error: expected ';'");
        }
        other => panic!("unexpected: {:?}", other),
    }
}

#[test]
fn first_failure_in_unit_order_is_reported() {
    let project = project("/proj");
    let mut session = probing(&project);
    session.verdicts_in(&vec![Verdict::Stale, Verdict::Stale, Verdict::Stale]);
    session.compiled(&vec![ok(), failed("second"), failed("third")]);
    assert_eq!(
        session.discard,
        strings(&["/proj/target/debug/obj/src/b.o", "/proj/target/debug/obj/src/sub/c.o"])
    );
    let error = session.into_outcome().unwrap().unwrap_err();
    assert_eq!(error.message(), "Error compiling /proj/src/b.cpp:\nsecond");
}

#[test]
fn successful_compilation_links_all_objects() {
    let project = project("/proj");
    let mut session = probing(&project);
    session.verdicts_in(&vec![Verdict::Fresh, Verdict::Stale, Verdict::Fresh]);
    session.compiled(&vec![ok()]);
    assert_eq!(session.phase, BuildPhase::Linking);
    assert!(session.discard.is_empty());
    let link = session.link_spec();
    assert_eq!(
        link.arguments(BuildProfile::Debug),
        strings(&[
            "/proj/target/debug/obj/src/a.o",
            "/proj/target/debug/obj/src/b.o",
            "/proj/target/debug/obj/src/sub/c.o",
            "-o",
            "/proj/target/debug/hello",
        ])
    );
}

#[test]
fn failed_link_carries_the_diagnostics() {
    let project = project("/proj");
    let mut session = probing(&project);
    session.verdicts_in(&vec![Verdict::Fresh, Verdict::Fresh, Verdict::Fresh]);
    session.linked(&failed("undefined reference to `main'"));
    assert_eq!(session.phase, BuildPhase::Failed);
    let error = session.into_outcome().unwrap().unwrap_err();
    assert!(matches!(error, BuildError::LinkError { .. }));
    assert_eq!(error.message(), "Linker Error:\nundefined reference to `main'");
}

#[test]
fn interruption_ends_an_unfinished_build_only() {
    let project = project("/proj");
    let mut session = probing(&project);
    session.interrupted("Failed to create build directory");
    assert_eq!(session.phase, BuildPhase::Failed);
    session.interrupted("again");
    match session.into_outcome().unwrap() {
        Err(BuildError::IoError { detail }) => assert_eq!(detail, "Failed to create build directory"),
        other => panic!("unexpected: {:?}", other),
    }
    let mut done = probing(&project);
    done.verdicts_in(&vec![Verdict::Fresh, Verdict::Fresh, Verdict::Fresh]);
    done.linked(&ok());
    done.interrupted("late");
    assert_eq!(done.phase, BuildPhase::Succeeded);
}

#[test]
fn link_arguments_in_full() {
    let link = LinkSpec::new(
        &strings(&["a.o", "b.o"]),
        &strings(&["/opt/vcpkg/x64-linux/lib", "/usr/local/lib"]),
        &strings(&["fmt", "z"]),
        "target/release/app",
    );
    assert_eq!(
        link.arguments(BuildProfile::Release),
        strings(&[
            "a.o",
            "b.o",
            "-L/opt/vcpkg/x64-linux/lib",
            "-L/usr/local/lib",
            "-lfmt",
            "-lz",
            "-o",
            "target/release/app",
            "-s",
        ])
    );
    assert_eq!(
        link.arguments(BuildProfile::Debug),
        strings(&[
            "a.o",
            "b.o",
            "-L/opt/vcpkg/x64-linux/lib",
            "-L/usr/local/lib",
            "-lfmt",
            "-lz",
            "-o",
            "target/release/app",
        ])
    );
    assert_eq!(link.conclude(&ok()).unwrap(), "target/release/app");
    assert!(matches!(link.conclude(&failed("x")), Err(BuildError::LinkError { .. })));
}

#[test]
fn first_failure_and_first_missing() {
    assert_eq!(find_first_failure(&vec![ok(), ok()]), None);
    assert_eq!(find_first_failure(&Vec::new()), None);
    assert_eq!(find_first_failure(&vec![ok(), failed("x"), failed("y")]), Some(1));
    assert_eq!(find_first_missing(&vec![Verdict::Fresh, Verdict::Stale]), None);
    assert_eq!(
        find_first_missing(&vec![Verdict::Fresh, Verdict::SourceMissing, Verdict::SourceMissing]),
        Some(1)
    );
    assert_eq!(
        stale_units(&vec![Verdict::Fresh, Verdict::Stale, Verdict::SourceMissing]),
        vec![false, true, false]
    );
}

#[test]
fn conclusions_without_a_session() {
    let project = project("/proj");
    let mut session = probing(&project);
    session.verdicts_in(&vec![Verdict::Stale, Verdict::Stale, Verdict::Fresh]);
    assert!(conclude_compilation(&session.jobs, &vec![ok(), ok()]).is_ok());
    assert!(objects_to_discard(&session.jobs, &vec![ok(), ok()]).is_empty());
    assert!(matches!(
        conclude_compilation(&session.jobs, &vec![failed("e"), ok()]),
        Err(BuildError::CompileError { .. })
    ));
}

#[test]
fn reports_that_do_not_fit_are_ignored() {
    let project = project("/proj");
    let mut session = probing(&project);
    session.sources_listed(None);
    session.compiled(&vec![ok()]);
    session.linked(&ok());
    session.verdicts_in(&vec![Verdict::Stale]);
    assert_eq!(session.phase, BuildPhase::Probing);
    assert_eq!(session.units.len(), 3);
    assert!(session.jobs.is_empty());
    assert!(session.error.is_none());
    session.verdicts_in(&vec![Verdict::Stale, Verdict::Stale, Verdict::Fresh]);
    assert_eq!(session.phase, BuildPhase::Compiling);
    session.compiled(&vec![ok()]);
    assert_eq!(session.phase, BuildPhase::Compiling);
    session.compiled(&vec![ok(), ok()]);
    assert_eq!(session.phase, BuildPhase::Linking);
}

#[test]
fn unfinished_build_has_no_outcome() {
    let project = project("/proj");
    let session = probing(&project);
    assert!(session.into_outcome().is_none());
}

#[test]
fn schedule_and_conclusions_with_counts_that_do_not_fit() {
    let project = project("/proj");
    let mut session = probing(&project);
    assert!(session.context.schedule(&session.units, &vec![true]).is_empty());
    session.verdicts_in(&vec![Verdict::Stale, Verdict::Stale, Verdict::Stale]);
    assert!(objects_to_discard(&session.jobs, &vec![failed("x")]).is_empty());
    assert!(conclude_compilation(&Vec::new(), &vec![failed("x")]).is_ok());
}

#[test]
fn release_link_strips_symbols_on_every_platform() {
    let project = project("/proj");
    let manager =
        BuildManager::with_compiler(&project, Some("/usr/bin/clang".to_string()), "windows", "x86_64")
            .unwrap();
    for windows in [false, true] {
        let mut session = manager.begin(BuildProfile::Release, windows);
        session.sources_listed(Some(three_units()));
        session.verdicts_in(&vec![Verdict::Fresh, Verdict::Fresh, Verdict::Fresh]);
        let arguments = session.link_spec().arguments(session.context.profile);
        let binary = if windows { "hello.exe" } else { "hello" };
        assert_eq!(
            arguments,
            strings(&[
                "/proj/target/release/obj/src/a.o",
                "/proj/target/release/obj/src/b.o",
                "/proj/target/release/obj/src/sub/c.o",
                "-o",
                &format!("/proj/target/release/{}", binary),
                "-s",
            ])
        );
    }
    let empty = LinkSpec::new(&Vec::new(), &Vec::new(), &Vec::new(), "out");
    assert_eq!(empty.arguments(BuildProfile::Release), strings(&["-o", "out", "-s"]));
    assert_eq!(empty.arguments(BuildProfile::Debug), strings(&["-o", "out"]));
}

#[test]
fn failed_session_never_ends_with_a_binary() {
    let project = project("/proj");
    let mut session = probing(&project);
    session.phase = BuildPhase::Failed;
    match session.into_outcome() {
        Some(Err(BuildError::IoError { detail })) => {
            assert_eq!(detail, "The build failed without a recorded error")
        }
        other => panic!("unexpected: {:?}", other),
    }
    let mut odd = probing(&project);
    odd.phase = BuildPhase::Succeeded;
    odd.error = Some(BuildError::EmptySourceSet);
    assert!(matches!(odd.into_outcome(), Some(Err(BuildError::EmptySourceSet))));
}
