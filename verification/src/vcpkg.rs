//! The vcpkg command line: which commands are run for a search and for an
//! installation, and how the list that a search prints is read.

use crate::error::{modelled, BuildError, BuildErrorModel};
use crate::manifest::{dependency_names, Manifest, ManifestModel, PackageManagerType};
use crate::path::{join, join_paths};
use crate::text::{
    char_is_decimal_digit, concatenate, copy_strings, equal, is_decimal_digit, is_word,
    join_from, joined, lemma_words_are_words, lines, push_text, split_lines, split_words,
    to_chars, words,
};
use vstd::prelude::*;

verus! {

/// One package of a registry.
#[derive(Debug)]
pub struct PackageInfo {
    pub name: String,
    pub version: String,
    pub description: Option<String>,
}

/// What a `PackageInfo` holds, as mathematical values.
pub struct PackageInfoModel {
    pub name: Seq<char>,
    pub version: Seq<char>,
    pub description: Option<Seq<char>>,
}

impl DeepView for PackageInfo {
    type V = PackageInfoModel;

    open spec fn deep_view(&self) -> PackageInfoModel {
        PackageInfoModel {
            name: self.name@,
            version: self.version@,
            description: self.description.deep_view(),
        }
    }
}

/// Where vcpkg is installed.
#[derive(Debug)]
pub struct VcpkgManifest {
    pub exe_root: String,
}

/// What a search has to do next.
#[derive(Debug)]
pub enum PackageSearch {
    /// Nothing: these are the packages.
    Done { packages: Vec<PackageInfo> },
    /// Run vcpkg with these arguments and read what it prints.
    Run { arguments: Vec<String> },
}

/// What a `PackageSearch` holds, as mathematical values.
pub enum PackageSearchModel {
    Done { packages: Seq<PackageInfoModel> },
    Run { arguments: Seq<Seq<char>> },
}

impl DeepView for PackageSearch {
    type V = PackageSearchModel;

    open spec fn deep_view(&self) -> PackageSearchModel {
        match self {
            PackageSearch::Done { packages } => PackageSearchModel::Done {
                packages: packages.deep_view(),
            },
            PackageSearch::Run { arguments } => PackageSearchModel::Run {
                arguments: arguments.deep_view(),
            },
        }
    }
}

/// What an installation has to do.
#[derive(Debug)]
pub struct InstallPlan {
    /// The vcpkg manifest, which has to exist before vcpkg is run.
    pub manifest_path: String,
    /// The arguments that vcpkg is run with.
    pub arguments: Vec<String>,
}

/// What a `InstallPlan` holds, as mathematical values.
pub struct InstallPlanModel {
    pub manifest_path: Seq<char>,
    pub arguments: Seq<Seq<char>>,
}

impl DeepView for InstallPlan {
    type V = InstallPlanModel;

    open spec fn deep_view(&self) -> InstallPlanModel {
        InstallPlanModel {
            manifest_path: self.manifest_path@,
            arguments: self.arguments.deep_view(),
        }
    }
}

/// The package that one line of a search result names: its first word is
/// the name and its second, which starts with a digit, the version; what
/// follows is the description. A line of another shape names no package.
pub open spec fn package_of_line(line: Seq<char>) -> Option<PackageInfoModel> {
    let parts = words(line);
    if parts.len() >= 2 && is_decimal_digit(parts[1][0]) {
        Some(
            PackageInfoModel {
                name: parts[0],
                version: parts[1],
                description: if parts.len() > 2 {
                    Some(joined(parts.skip(2), " "@))
                } else {
                    None
                },
            },
        )
    } else {
        None
    }
}

/// The packages that a search result names, in the order of its lines.
pub open spec fn package_list(output: Seq<char>) -> Seq<PackageInfoModel> {
    lines(output).filter_map(|line: Seq<char>| package_of_line(line))
}

/// The arguments of a search for `package`.
pub open spec fn search_arguments(package: Seq<char>) -> Seq<Seq<char>> {
    seq!["search"@, package, "--x-full-desc"@]
}

/// What a search for `package` has to do with a backend: the built-in one
/// knows no package, vcpkg has to be asked.
pub open spec fn search_plan(manager: PackageManagerType, package: Seq<char>) -> PackageSearchModel {
    match manager {
        PackageManagerType::Ppargo => PackageSearchModel::Done { packages: Seq::empty() },
        PackageManagerType::Vcpkg => PackageSearchModel::Run {
            arguments: search_arguments(package),
        },
    }
}

/// What the end of a search means: the packages that vcpkg printed, or an
/// error that names the package where vcpkg failed.
pub open spec fn search_result(
    package: Seq<char>,
    success: bool,
    stdout: Seq<char>,
) -> Result<Seq<PackageInfoModel>, BuildErrorModel> {
    if success {
        Ok(package_list(stdout))
    } else {
        Err(
            BuildErrorModel::IoError {
                detail: "Failed to search for package '"@ + package + "'"@,
            },
        )
    }
}

/// The arguments of an installation into the project at `root`.
pub open spec fn install_arguments(root: Seq<char>, triplet: Seq<char>) -> Seq<Seq<char>> {
    seq![
        "install"@,
        "--x-manifest-root"@,
        root,
        "--x-install-root"@,
        join(root, "packages"@),
        "--triplet"@,
        triplet,
    ]
}

/// What an installation has to do for a manifest: nothing with the
/// built-in backend, one vcpkg run with the other.
pub open spec fn install_plan(
    manifest: ManifestModel,
    root: Seq<char>,
    triplet: Seq<char>,
) -> Option<InstallPlanModel> {
    match manifest.features.package_manager {
        PackageManagerType::Ppargo => None,
        PackageManagerType::Vcpkg => Some(
            InstallPlanModel {
                manifest_path: join(root, "vcpkg.json"@),
                arguments: install_arguments(root, triplet),
            },
        ),
    }
}

/// `known` with every name of `names` that it lacks added at its end, in
/// the order of `names`.
pub open spec fn merged_names(known: Seq<Seq<char>>, names: Seq<Seq<char>>) -> Seq<Seq<char>>
    decreases names.len(),
{
    if names.len() == 0 {
        known
    } else {
        let before = merged_names(known, names.drop_last());
        if before.contains(names.last()) {
            before
        } else {
            before.push(names.last())
        }
    }
}

/// Reads one line of a search result.
pub fn parse_package_line(line: &str) -> (package: Option<PackageInfo>)
    ensures
        package.deep_view() == package_of_line(line@),
{
    let parts = split_words(line);
    if parts.len() < 2 {
        return None;
    }
    assert(parts.deep_view()[0] == parts[0]@);
    assert(parts.deep_view()[1] == parts[1]@);
    let version = to_chars(parts[1].as_str());
    proof {
        lemma_words_are_words(line@);
        assert(is_word(words(line@)[1]));
    }
    if !char_is_decimal_digit(version[0]) {
        return None;
    }
    let description = if parts.len() > 2 {
        Some(join_from(&parts, 2, " "))
    } else {
        None
    };
    Some(PackageInfo { name: parts[0].clone(), version: parts[1].clone(), description })
}

/// Reads the packages out of what a search printed.
pub fn parse_package_list(output: &str) -> (packages: Vec<PackageInfo>)
    ensures
        packages.deep_view() == package_list(output@),
{
    let all = split_lines(output);
    let ghost list = all.deep_view();
    let ghost read = |line: Seq<char>| package_of_line(line);
    let mut packages: Vec<PackageInfo> = Vec::new();
    let mut i: usize = 0;
    proof {
        assert(list.take(0).filter_map(read) =~= Seq::<PackageInfoModel>::empty());
        assert(packages.deep_view() =~= Seq::<PackageInfoModel>::empty());
    }
    while i < all.len()
        invariant
            i <= all.len(),
            list == all.deep_view(),
            list == lines(output@),
            read == |line: Seq<char>| package_of_line(line),
            packages.deep_view() == list.take(i as int).filter_map(read),
        decreases all.len() - i,
    {
        let ghost before = packages.deep_view();
        proof {
            assert(list.take(i + 1).drop_last() =~= list.take(i as int));
            assert(list.take(i + 1).last() == all[i as int]@);
        }
        if let Some(package) = parse_package_line(all[i].as_str()) {
            packages.push(package);
            assert(packages.deep_view() =~= before + seq![package.deep_view()]);
        }
        i += 1;
    }
    assert(list.take(i as int) =~= list);
    packages
}

impl VcpkgManifest {
    /// Where the vcpkg executable is expected.
    pub fn vcpkg_exe(&self, windows: bool) -> (exe: String)
        ensures
            exe@ == join(
                self.exe_root@,
                if windows {
                    "vcpkg.exe"@
                } else {
                    "vcpkg"@
                },
            ),
    {
        if windows {
            join_paths(self.exe_root.as_str(), "vcpkg.exe")
        } else {
            join_paths(self.exe_root.as_str(), "vcpkg")
        }
    }
}

/// Says what a search for `package` has to do.
pub fn search_package(manager: PackageManagerType, package: &str) -> (search: PackageSearch)
    ensures
        search.deep_view() == search_plan(manager, package@),
{
    match manager {
        PackageManagerType::Ppargo => {
            let packages: Vec<PackageInfo> = Vec::new();
            assert(packages.deep_view() =~= Seq::<PackageInfoModel>::empty());
            PackageSearch::Done { packages }
        },
        PackageManagerType::Vcpkg => {
            let mut arguments: Vec<String> = Vec::new();
            assert(arguments.deep_view() =~= Seq::<Seq<char>>::empty());
            push_text(&mut arguments, "search");
            push_text(&mut arguments, package);
            push_text(&mut arguments, "--x-full-desc");
            assert(arguments.deep_view() =~= search_arguments(package@));
            PackageSearch::Run { arguments }
        },
    }
}

/// Decides what the end of a search means.
pub fn search_results(package: &str, success: bool, stdout: &str) -> (found: Result<
    Vec<PackageInfo>,
    BuildError,
>)
    ensures
        modelled(found) == search_result(package@, success, stdout@),
{
    if success {
        Ok(parse_package_list(stdout))
    } else {
        let mut detail = concatenate("Failed to search for package '", package);
        detail.append("'");
        Err(BuildError::IoError { detail })
    }
}

/// Says what an installation has to do for `manifest` in the project at
/// `root`.
pub fn install_dependencies(manifest: &Manifest, root: &str, triplet: &str) -> (plan: Option<
    InstallPlan,
>)
    ensures
        plan.deep_view() == install_plan(manifest.deep_view(), root@, triplet@),
{
    match manifest.features.package_manager {
        PackageManagerType::Ppargo => None,
        PackageManagerType::Vcpkg => {
            let mut arguments: Vec<String> = Vec::new();
            assert(arguments.deep_view() =~= Seq::<Seq<char>>::empty());
            push_text(&mut arguments, "install");
            push_text(&mut arguments, "--x-manifest-root");
            push_text(&mut arguments, root);
            push_text(&mut arguments, "--x-install-root");
            push_text(&mut arguments, join_paths(root, "packages").as_str());
            push_text(&mut arguments, "--triplet");
            push_text(&mut arguments, triplet);
            assert(arguments.deep_view() =~= install_arguments(root@, triplet@));
            Some(InstallPlan { manifest_path: join_paths(root, "vcpkg.json"), arguments })
        },
    }
}

/// Whether `list` holds `name`.
pub fn holds_name(list: &Vec<String>, name: &str) -> (yes: bool)
    ensures
        yes == list.deep_view().contains(name@),
{
    let ghost all = list.deep_view();
    let mut i: usize = 0;
    while i < list.len()
        invariant
            i <= list.len(),
            all == list.deep_view(),
            forall|k: int| 0 <= k < i ==> #[trigger] all[k] != name@,
        decreases list.len() - i,
    {
        assert(all[i as int] == list[i as int]@);
        if equal(list[i].as_str(), name) {
            return true;
        }
        i += 1;
    }
    false
}

/// Adds to the dependencies that a vcpkg manifest lists those of the
/// project's manifest that it lacks.
pub fn merge_dependencies(known: &Vec<String>, manifest: &Manifest) -> (merged: Vec<String>)
    ensures
        merged.deep_view() == merged_names(
            known.deep_view(),
            dependency_names(manifest.deep_view().dependencies),
        ),
{
    let ghost names = dependency_names(manifest.deep_view().dependencies);
    let mut merged = copy_strings(known);
    let mut i: usize = 0;
    proof {
        assert(names.take(0) =~= Seq::<Seq<char>>::empty());
    }
    while i < manifest.dependencies.len()
        invariant
            i <= manifest.dependencies.len(),
            names == dependency_names(manifest.deep_view().dependencies),
            merged.deep_view() == merged_names(known.deep_view(), names.take(i as int)),
        decreases manifest.dependencies.len() - i,
    {
        proof {
            assert(names.take(i + 1).drop_last() =~= names.take(i as int));
            assert(names.take(i + 1).last() == manifest.dependencies[i as int].name@);
        }
        let name = manifest.dependencies[i].name.as_str();
        if !holds_name(&merged, name) {
            push_text(&mut merged, name);
        }
        i += 1;
    }
    assert(names.take(i as int) =~= names);
    merged
}

} // verus!
