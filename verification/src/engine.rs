//! The build engine: from a project and a profile to a linked binary.
//!
//! The engine decides and its caller acts. A `BuildManager` is made once the
//! compiler was searched for; it is refused where the compiler was not
//! found or the package backend is misconfigured, before anything touches
//! the project's directories. A `BuildSession` then walks through the build.
//! Its phase tells the caller what to do next:
//!
//! * `Collecting`: walk `source_dir` and report the entries;
//! * `Probing`: make the `directories`, check every unit with its probe
//!   and report the verdicts;
//! * `Compiling`: run every job, all of them to the end, and report how
//!   each ended;
//! * `Linking`: run the linker on the `link_spec` and report how it ended;
//! * `Succeeded`: the binary is at the context's `output_path`;
//! * `Failed`: delete the files in `discard` and show `error`.

use crate::compile::{
    compilation_result, conclude_compilation, failed_objects, first_failure, lemma_first_failure,
    lemma_nothing_stale_schedules_nothing, object_directories, object_files, objects_to_discard,
    scheduled, BuildContext, BuildContextModel, CompileJob, CompileJobModel, ToolOutput,
    ToolOutputModel,
};
use crate::error::{modelled, BuildError, BuildErrorModel, ConfigProblemModel};
use crate::link::{LinkSpec, LinkSpecModel};
use crate::manifest::link_libraries;
use crate::package::{
    configured_backend, no_packages, PackageManager, PackageManagerModel, PackagePathSet,
};
use crate::path::{join, join_paths};
use crate::profile::BuildProfile;
use crate::project::{binary_name, build_dir, object_dir, source_dir, Project, ProjectModel};
use crate::sources::{
    collect_units, collected_units, depfile_path_for, object_path_for, select_sources,
    selected_sources, CompilationUnit, CompilationUnitModel, WalkEntry, WalkEntryModel,
};
use crate::staleness::{
    lemma_probe_decides, lemma_touch_elsewhere_changes_nothing,
    lemma_touched_dependency_is_stale, lemma_touched_source_is_stale, lemma_up_to_date_is_fresh,
    recorded_dependencies, up_to_date, verdict_of, ProbeModel, ProbeStage, Snapshot,
    StalenessProbe, Timestamp, Verdict,
};
use crate::text::{concatenate, push_all, push_text};
use crate::toolchain::{resolved_toolchain, ToolchainConfig, ToolchainConfigModel};
use vstd::prelude::*;

verus! {

/// A project that is ready to build: its toolchain is resolved and its
/// package backend is set up.
#[derive(Debug)]
pub struct BuildManager<'a> {
    pub project: &'a Project,
    pub toolchain: ToolchainConfig,
    pub package_manager: Option<PackageManager>,
}

/// What a `BuildManager` holds, as mathematical values.
pub struct BuildManagerModel {
    pub project: ProjectModel,
    pub toolchain: ToolchainConfigModel,
    pub package_manager: Option<PackageManagerModel>,
}

impl<'a> DeepView for BuildManager<'a> {
    type V = BuildManagerModel;

    open spec fn deep_view(&self) -> BuildManagerModel {
        BuildManagerModel {
            project: self.project.deep_view(),
            toolchain: self.toolchain.deep_view(),
            package_manager: self.package_manager.deep_view(),
        }
    }
}

/// Where a build stands.
#[derive(Clone, Copy, Debug, PartialEq, Eq, Structural)]
pub enum BuildPhase {
    Collecting,
    Probing,
    Compiling,
    Linking,
    Succeeded,
    Failed,
}

/// One build of one project with one profile.
#[derive(Debug)]
pub struct BuildSession {
    pub phase: BuildPhase,
    /// The project's root.
    pub root: String,
    /// The directory that is walked for sources.
    pub source_dir: String,
    pub context: BuildContext,
    /// The units of the build, once the sources were collected.
    pub units: Vec<CompilationUnit>,
    /// The directories that have to exist before any unit is checked.
    pub directories: Vec<String>,
    /// The compilations of the build, once the verdicts are in.
    pub jobs: Vec<CompileJob>,
    /// The object files to delete after a failed compilation.
    pub discard: Vec<String>,
    /// Why the build failed.
    pub error: Option<BuildError>,
}

/// What a `BuildSession` holds, as mathematical values.
pub struct BuildSessionModel {
    pub phase: BuildPhase,
    pub root: Seq<char>,
    pub source_dir: Seq<char>,
    pub context: BuildContextModel,
    pub units: Seq<CompilationUnitModel>,
    pub directories: Seq<Seq<char>>,
    pub jobs: Seq<CompileJobModel>,
    pub discard: Seq<Seq<char>>,
    pub error: Option<BuildErrorModel>,
}

impl DeepView for BuildSession {
    type V = BuildSessionModel;

    open spec fn deep_view(&self) -> BuildSessionModel {
        BuildSessionModel {
            phase: self.phase,
            root: self.root@,
            source_dir: self.source_dir@,
            context: self.context.deep_view(),
            units: self.units.deep_view(),
            directories: self.directories.deep_view(),
            jobs: self.jobs.deep_view(),
            discard: self.discard.deep_view(),
            error: self.error.deep_view(),
        }
    }
}

/// The manager that follows from a project and a search for its compiler.
/// A compiler that was not found, and a backend without its root, are
/// configuration errors.
pub open spec fn configured_manager(
    project: ProjectModel,
    located: Option<Seq<char>>,
    os: Seq<char>,
    arch: Seq<char>,
) -> Result<BuildManagerModel, BuildErrorModel> {
    match resolved_toolchain(
        project.manifest.toolchain.compiler,
        project.manifest.package.edition,
        located,
    ) {
        Err(error) => Err(error),
        Ok(toolchain) => if project.manifest.features.packages {
            match configured_backend(project.root, project.manifest, os, arch) {
                Err(error) => Err(error),
                Ok(backend) => Ok(
                    BuildManagerModel { project, toolchain, package_manager: Some(backend) },
                ),
            }
        } else {
            Ok(BuildManagerModel { project, toolchain, package_manager: None })
        },
    }
}

/// What a build of `manager` with `profile` hands to its compilations and
/// to its link step.
pub open spec fn context_of(
    manager: BuildManagerModel,
    profile: BuildProfile,
    windows: bool,
) -> BuildContextModel {
    let manifest = manager.project.manifest;
    let paths = match manager.package_manager {
        Some(backend) => backend.resolve(manifest),
        None => no_packages(),
    };
    let dir = build_dir(manager.project.root, profile.spec_dir_name());
    BuildContextModel {
        compiler: manager.toolchain.compiler_executable,
        flags: manager.toolchain.base_flags(profile),
        include_paths: paths.include_dirs,
        lib_paths: paths.lib_dirs,
        link_libs: link_libraries(manifest.dependencies),
        profile,
        windows,
        build_dir: dir,
        obj_root: object_dir(manager.project.root, profile.spec_dir_name()),
        output_path: join(dir, binary_name(manifest.package.name, windows)),
    }
}

/// A build that has done nothing yet.
pub open spec fn started(
    manager: BuildManagerModel,
    profile: BuildProfile,
    windows: bool,
) -> BuildSessionModel {
    BuildSessionModel {
        phase: BuildPhase::Collecting,
        root: manager.project.root,
        source_dir: source_dir(manager.project.root),
        context: context_of(manager, profile, windows),
        units: Seq::empty(),
        directories: Seq::empty(),
        jobs: Seq::empty(),
        discard: Seq::empty(),
        error: None,
    }
}

/// Position of the first unit whose source was not found, or `-1`.
pub open spec fn first_missing(verdicts: Seq<Verdict>) -> int
    decreases verdicts.len(),
{
    if verdicts.len() == 0 {
        -1
    } else if first_missing(verdicts.drop_last()) >= 0 {
        first_missing(verdicts.drop_last())
    } else if verdicts.last() == Verdict::SourceMissing {
        verdicts.len() - 1
    } else {
        -1
    }
}

/// For each verdict, whether it asks for a compilation.
pub open spec fn stale_flags(verdicts: Seq<Verdict>) -> Seq<bool> {
    verdicts.map_values(|verdict: Verdict| verdict == Verdict::Stale)
}

/// The error of a build whose source file has gone.
pub open spec fn missing_source_error(source: Seq<char>) -> BuildErrorModel {
    BuildErrorModel::IoError { detail: "Source file not found: "@ + source }
}

/// The error of a failed build that recorded none.
pub open spec fn unrecorded_failure() -> BuildErrorModel {
    BuildErrorModel::IoError { detail: "The build failed without a recorded error"@ }
}

impl BuildSessionModel {
    /// Whether the session is well formed: it holds an error exactly where
    /// it has failed.
    pub open spec fn wf(self) -> bool {
        (self.phase == BuildPhase::Failed) == (self.error is Some)
    }

    /// Whether the build is over.
    pub open spec fn finished(self) -> bool {
        self.phase == BuildPhase::Succeeded || self.phase == BuildPhase::Failed
    }

    /// The build, failed with `error`.
    pub open spec fn failed(self, error: BuildErrorModel) -> BuildSessionModel {
        BuildSessionModel { phase: BuildPhase::Failed, error: Some(error), ..self }
    }

    /// What the linker is given.
    pub open spec fn link_spec(self) -> LinkSpecModel {
        LinkSpecModel {
            object_files: object_files(self.context, self.units),
            library_search_paths: self.context.lib_paths,
            link_library_names: self.context.link_libs,
            output_path: self.context.output_path,
        }
    }

    /// The probe that checks the unit at `index`.
    pub open spec fn probe(self, index: int) -> ProbeModel {
        let unit = self.units[index];
        ProbeModel::start(
            unit.source_path,
            object_path_for(self.context.obj_root, unit.relative_path),
            depfile_path_for(self.context.obj_root, unit.relative_path),
        )
    }

    /// The build after the source directory was walked. `None` says that
    /// the directory does not exist. A walk without any translation unit
    /// ends the build. A build that is not collecting stays as it is.
    pub open spec fn after_listing(self, listing: Option<Seq<WalkEntryModel>>) -> BuildSessionModel {
        if self.phase != BuildPhase::Collecting {
            self
        } else {
            match listing {
                None => self.failed(
                    BuildErrorModel::MissingSourceDirectory { path: self.source_dir },
                ),
                Some(entries) => match collected_units(selected_sources(entries), self.root) {
                    Err(error) => self.failed(error),
                    Ok(units) => BuildSessionModel {
                        phase: BuildPhase::Probing,
                        units,
                        directories: seq![self.context.build_dir, self.context.obj_root]
                            + object_directories(self.context, units),
                        ..self
                    },
                },
            }
        }
    }

    /// The build after every unit was checked. A source that has gone ends
    /// the build. Else every stale unit gets a job; where there is none, the
    /// build goes on to link. A build that is not probing, and one that is
    /// given another number of verdicts than it has units, stays as it is.
    pub open spec fn after_verdicts(self, verdicts: Seq<Verdict>) -> BuildSessionModel {
        let missing = first_missing(verdicts);
        let jobs = scheduled(self.context, self.units, stale_flags(verdicts));
        if self.phase != BuildPhase::Probing || verdicts.len() != self.units.len() {
            self
        } else if 0 <= missing < self.units.len() {
            self.failed(missing_source_error(self.units[missing].source_path))
        } else if jobs.len() == 0 {
            BuildSessionModel { phase: BuildPhase::Linking, jobs, ..self }
        } else {
            BuildSessionModel { phase: BuildPhase::Compiling, jobs, ..self }
        }
    }

    /// The build after every job has ended. One rejected unit ends the
    /// build, with the diagnostics of the first rejected unit; the object
    /// files of the rejected units are to be discarded, no other. A build
    /// that is not compiling, and one that is given another number of
    /// outcomes than it has jobs, stays as it is.
    pub open spec fn after_compilation(self, outcomes: Seq<ToolOutputModel>) -> BuildSessionModel {
        if self.phase != BuildPhase::Compiling || outcomes.len() != self.jobs.len() {
            self
        } else {
            match compilation_result(self.jobs, outcomes) {
                Err(error) => BuildSessionModel {
                    phase: BuildPhase::Failed,
                    error: Some(error),
                    discard: failed_objects(self.jobs, outcomes),
                    ..self
                },
                Ok(_) => BuildSessionModel { phase: BuildPhase::Linking, ..self },
            }
        }
    }

    /// The build after the linker has ended. A build that is not linking
    /// stays as it is.
    pub open spec fn after_link(self, outcome: ToolOutputModel) -> BuildSessionModel {
        if self.phase != BuildPhase::Linking {
            self
        } else if outcome.success {
            BuildSessionModel { phase: BuildPhase::Succeeded, ..self }
        } else {
            self.failed(BuildErrorModel::LinkError { stderr: outcome.stderr })
        }
    }

    /// The build after its caller could not do what was asked.
    pub open spec fn after_interruption(self, detail: Seq<char>) -> BuildSessionModel {
        if self.finished() {
            self
        } else {
            self.failed(BuildErrorModel::IoError { detail })
        }
    }

    /// How the build ended: the path of the binary where it succeeded, the
    /// error where it failed. A build that is not over has no outcome. Only
    /// a build that succeeded and holds no error ends with a binary: a
    /// session that is not well formed ends with the error it holds, or with
    /// `unrecorded_failure`.
    pub open spec fn outcome(self) -> Option<Result<Seq<char>, BuildErrorModel>> {
        if !self.finished() {
            None
        } else {
            match self.error {
                Some(error) => Some(Err(error)),
                None => if self.phase == BuildPhase::Failed {
                    Some(Err(unrecorded_failure()))
                } else {
                    Some(Ok(self.context.output_path))
                },
            }
        }
    }

    /// Where the object file of the unit at `index` is.
    pub open spec fn object_of(self, index: int) -> Seq<char> {
        object_path_for(self.context.obj_root, self.units[index].relative_path)
    }

    /// Where the dependency file of the unit at `index` is.
    pub open spec fn depfile_of(self, index: int) -> Seq<char> {
        depfile_path_for(self.context.obj_root, self.units[index].relative_path)
    }

    /// The verdict that the staleness rule gives on the unit at `index` in
    /// a snapshot.
    pub open spec fn verdict(self, snapshot: Snapshot, index: int) -> Verdict {
        verdict_of(
            snapshot,
            self.units[index].source_path,
            self.object_of(index),
            self.depfile_of(index),
        )
    }

    /// The verdicts on all units in a snapshot, in the order of the units.
    pub open spec fn verdicts(self, snapshot: Snapshot) -> Seq<Verdict> {
        Seq::new(self.units.len(), |index: int| self.verdict(snapshot, index))
    }

    /// Whether `path` is the source or an output of the unit at `index`.
    pub open spec fn belongs_to(self, path: Seq<char>, index: int) -> bool {
        path == self.units[index].source_path || path == self.object_of(index) || path
            == self.depfile_of(index)
    }
}

/// Every step keeps a session well formed: a build has an error exactly
/// where it has failed, whatever is reported to it.
pub proof fn lemma_steps_keep_sessions_well_formed(
    session: BuildSessionModel,
    listing: Option<Seq<WalkEntryModel>>,
    verdicts: Seq<Verdict>,
    outcomes: Seq<ToolOutputModel>,
    linked: ToolOutputModel,
    detail: Seq<char>,
)
    requires
        session.wf(),
    ensures
        session.after_listing(listing).wf(),
        session.after_verdicts(verdicts).wf(),
        session.after_compilation(outcomes).wf(),
        session.after_link(linked).wf(),
        session.after_interruption(detail).wf(),
{
}

/// A compiler that is not on the search path is a configuration error, and
/// no build is started: there is no manager to start one with.
pub proof fn lemma_missing_compiler_is_refused(project: ProjectModel, os: Seq<char>, arch: Seq<char>)
    ensures
        configured_manager(project, None, os, arch) == Err::<BuildManagerModel, BuildErrorModel>(
            BuildErrorModel::ConfigError(
                ConfigProblemModel::CompilerNotFound {
                    compiler: project.manifest.toolchain.compiler,
                },
            ),
        ),
{
}

/// A walk that finds no translation unit ends the build with
/// `EmptySourceSet`: no directory is asked for, and no job exists.
pub proof fn lemma_empty_source_set_is_refused(
    session: BuildSessionModel,
    entries: Seq<WalkEntryModel>,
)
    requires
        session.phase == BuildPhase::Collecting,
        session.jobs.len() == 0,
        session.directories.len() == 0,
        selected_sources(entries).len() == 0,
    ensures
        session.after_listing(Some(entries)).phase == BuildPhase::Failed,
        session.after_listing(Some(entries)).error == Some(BuildErrorModel::EmptySourceSet),
        session.after_listing(Some(entries)).jobs.len() == 0,
        session.after_listing(Some(entries)).directories.len() == 0,
{
}

/// Idempotence: a build in which every unit is fresh compiles nothing and
/// goes on to link.
pub proof fn lemma_fresh_build_only_links(session: BuildSessionModel, verdicts: Seq<Verdict>)
    requires
        session.phase == BuildPhase::Probing,
        verdicts.len() == session.units.len(),
        forall|i: int| 0 <= i < verdicts.len() ==> #[trigger] verdicts[i] == Verdict::Fresh,
    ensures
        session.after_verdicts(verdicts).phase == BuildPhase::Linking,
        session.after_verdicts(verdicts).jobs.len() == 0,
        session.after_verdicts(verdicts).link_spec() == session.link_spec(),
{
    lemma_first_missing(verdicts);
    lemma_nothing_stale_schedules_nothing(session.context, session.units, stale_flags(verdicts));
}

/// `first_missing` finds a unit whose source has gone, and none comes
/// before it.
pub proof fn lemma_first_missing(verdicts: Seq<Verdict>)
    ensures
        -1 <= first_missing(verdicts) < verdicts.len(),
        first_missing(verdicts) >= 0 ==> verdicts[first_missing(verdicts)]
            == Verdict::SourceMissing,
        forall|k: int|
            0 <= k < verdicts.len() && (first_missing(verdicts) < 0 || k < first_missing(verdicts))
                ==> #[trigger] verdicts[k] != Verdict::SourceMissing,
    decreases verdicts.len(),
{
    if verdicts.len() > 0 {
        let front = verdicts.drop_last();
        lemma_first_missing(front);
        assert forall|k: int|
            0 <= k < verdicts.len() && (first_missing(verdicts) < 0 || k < first_missing(
                verdicts,
            )) implies #[trigger] verdicts[k] != Verdict::SourceMissing by {
            if k < front.len() {
                assert(verdicts[k] == front[k]);
            }
        }
    }
}

/// One failure is enough: where a job was rejected, the build fails with
/// the source and the diagnostics of the first rejected job, and does not
/// link.
pub proof fn lemma_failed_compilation_stops_the_build(
    session: BuildSessionModel,
    outcomes: Seq<ToolOutputModel>,
    rejected: int,
)
    requires
        session.phase == BuildPhase::Compiling,
        outcomes.len() == session.jobs.len(),
        0 <= rejected < outcomes.len(),
        !outcomes[rejected].success,
        forall|k: int| 0 <= k < rejected ==> (#[trigger] outcomes[k]).success,
    ensures
        session.after_compilation(outcomes).phase == BuildPhase::Failed,
        session.after_compilation(outcomes).error == Some(
            BuildErrorModel::CompileError {
                source_path: session.jobs[rejected].source_path,
                stderr: outcomes[rejected].stderr,
            },
        ),
{
    lemma_first_failure(outcomes);
    let found = first_failure(outcomes);
    if found < 0 || found > rejected {
        assert(outcomes[rejected].success);
    }
    if 0 <= found < rejected {
        assert(outcomes[found].success);
    }
}

/// Only what failed is discarded: every file in the discard list is the
/// object file of a rejected job.
pub proof fn lemma_only_failures_are_discarded(
    jobs: Seq<CompileJobModel>,
    outcomes: Seq<ToolOutputModel>,
)
    requires
        outcomes.len() == jobs.len(),
    ensures
        forall|d: int|
            0 <= d < failed_objects(jobs, outcomes).len() ==> exists|k: int|
                0 <= k < jobs.len() && !outcomes[k].success && jobs[k].object_path
                    == #[trigger] failed_objects(jobs, outcomes)[d],
    decreases jobs.len(),
{
    if jobs.len() > 0 {
        let j = jobs.drop_last();
        let o = outcomes.drop_last();
        lemma_only_failures_are_discarded(j, o);
        let all = failed_objects(jobs, outcomes);
        let front = failed_objects(j, o);
        assert forall|d: int| 0 <= d < all.len() implies exists|k: int|
            0 <= k < jobs.len() && !outcomes[k].success && jobs[k].object_path == #[trigger] all[d] by {
            if d < front.len() {
                assert(all[d] == front[d]);
                let k = choose|k: int|
                    0 <= k < j.len() && !o[k].success && j[k].object_path == front[d];
                assert(outcomes[k] == o[k]);
                assert(jobs[k] == j[k]);
            } else {
                let k = jobs.len() - 1;
                assert(!outcomes[k].success && jobs[k].object_path == all[d]);
            }
        }
    }
}

/// The probe of a unit, answered from a snapshot, ends with the verdict
/// that the staleness rule gives on that unit.
pub proof fn lemma_probe_gives_the_verdict(
    session: BuildSessionModel,
    snapshot: Snapshot,
    index: int,
)
    requires
        0 <= index < session.units.len(),
    ensures
        session.probe(index).run(snapshot).stage == ProbeStage::Done,
        session.probe(index).run(snapshot).verdict == session.verdict(snapshot, index),
{
    lemma_probe_decides(
        snapshot,
        session.units[index].source_path,
        session.object_of(index),
        session.depfile_of(index),
    );
}

/// Header propagation: in a project whose units are all fresh, a header
/// that is modified after every object was written makes exactly the units
/// stale whose dependency files record it. The others stay fresh.
pub proof fn lemma_header_propagation(
    session: BuildSessionModel,
    snapshot: Snapshot,
    header: Seq<char>,
    at: Timestamp,
)
    requires
        forall|i: int|
            0 <= i < session.units.len() ==> #[trigger] session.verdict(snapshot, i)
                == Verdict::Fresh,
        forall|i: int| 0 <= i < session.units.len() ==> !#[trigger] session.belongs_to(header, i),
        forall|i: int|
            0 <= i < session.units.len() ==> at.newer_than(
                snapshot.stat(#[trigger] session.object_of(i))->0,
            ),
    ensures
        forall|i: int|
            0 <= i < session.units.len() ==> #[trigger] session.verdict(
                snapshot.touched(header, at),
                i,
            ) == if recorded_dependencies(snapshot, session.depfile_of(i)).contains(header) {
                Verdict::Stale
            } else {
                Verdict::Fresh
            },
{
    assert forall|i: int| 0 <= i < session.units.len() implies #[trigger] session.verdict(
        snapshot.touched(header, at),
        i,
    ) == if recorded_dependencies(snapshot, session.depfile_of(i)).contains(header) {
        Verdict::Stale
    } else {
        Verdict::Fresh
    } by {
        let source = session.units[i].source_path;
        let object = session.object_of(i);
        let depfile = session.depfile_of(i);
        assert(session.verdict(snapshot, i) == Verdict::Fresh);
        assert(!session.belongs_to(header, i));
        assert(at.newer_than(snapshot.stat(session.object_of(i))->0));
        if recorded_dependencies(snapshot, depfile).contains(header) {
            lemma_touched_dependency_is_stale(snapshot, source, object, depfile, header, at);
        } else {
            lemma_touch_elsewhere_changes_nothing(snapshot, source, object, depfile, header, at);
        }
    }
}

/// Source edit isolation: in a project whose units are all fresh, editing
/// the source of one unit, a file that no other unit records, makes that
/// unit stale and no other.
pub proof fn lemma_source_edit_isolation(
    session: BuildSessionModel,
    snapshot: Snapshot,
    edited: int,
    at: Timestamp,
)
    requires
        0 <= edited < session.units.len(),
        forall|i: int|
            0 <= i < session.units.len() ==> #[trigger] session.verdict(snapshot, i)
                == Verdict::Fresh,
        session.units[edited].source_path != session.object_of(edited),
        at.newer_than(snapshot.stat(session.object_of(edited))->0),
        forall|i: int|
            0 <= i < session.units.len() && i != edited ==> !#[trigger] session.belongs_to(
                session.units[edited].source_path,
                i,
            ) && !recorded_dependencies(snapshot, session.depfile_of(i)).contains(
                session.units[edited].source_path,
            ),
    ensures
        forall|i: int|
            0 <= i < session.units.len() ==> #[trigger] session.verdict(
                snapshot.touched(session.units[edited].source_path, at),
                i,
            ) == if i == edited {
                Verdict::Stale
            } else {
                Verdict::Fresh
            },
{
    let touched = session.units[edited].source_path;
    assert forall|i: int| 0 <= i < session.units.len() implies #[trigger] session.verdict(
        snapshot.touched(touched, at),
        i,
    ) == if i == edited {
        Verdict::Stale
    } else {
        Verdict::Fresh
    } by {
        let source = session.units[i].source_path;
        let object = session.object_of(i);
        let depfile = session.depfile_of(i);
        assert(session.verdict(snapshot, i) == Verdict::Fresh);
        if i == edited {
            lemma_touched_source_is_stale(snapshot, source, object, depfile, at);
        } else {
            assert(!session.belongs_to(touched, i));
            lemma_touch_elsewhere_changes_nothing(snapshot, source, object, depfile, touched, at);
        }
    }
}

/// Idempotence: a project in which every object was written after its
/// source and after every dependency that still exists has only fresh
/// units, so its next build compiles nothing and goes on to link.
pub proof fn lemma_second_build_compiles_nothing(session: BuildSessionModel, snapshot: Snapshot)
    requires
        session.phase == BuildPhase::Probing,
        forall|i: int|
            0 <= i < session.units.len() ==> up_to_date(
                snapshot,
                (#[trigger] session.units[i]).source_path,
                session.object_of(i),
                session.depfile_of(i),
            ),
    ensures
        session.after_verdicts(session.verdicts(snapshot)).phase == BuildPhase::Linking,
        session.after_verdicts(session.verdicts(snapshot)).jobs.len() == 0,
{
    let verdicts = session.verdicts(snapshot);
    assert forall|i: int| 0 <= i < verdicts.len() implies #[trigger] verdicts[i]
        == Verdict::Fresh by {
        lemma_up_to_date_is_fresh(
            snapshot,
            session.units[i].source_path,
            session.object_of(i),
            session.depfile_of(i),
        );
    }
    lemma_fresh_build_only_links(session, verdicts);
}

/// Searches the search path for an executable named `compiler`.
///
/// Trusted: the search is `which::which`. Nothing is claimed of its answer,
/// which depends on the search path and on the files found there. A path
/// that is not valid Unicode comes back with the offending parts replaced.
#[verifier::external_body]
fn find_compiler(compiler: &str) -> (located: Option<String>) {
    match which::which(compiler) {
        Ok(path) => Some(path.to_string_lossy().into_owned()),
        Err(_) => None,
    }
}

impl<'a> BuildManager<'a> {
    /// Makes a project ready to build: searches the path for the manifest's
    /// compiler and sets up the package backend. `os` and `arch` name the
    /// platform. Whatever the search finds, the result is the one that
    /// `with_compiler` gives for it; in particular every refusal is a
    /// configuration error.
    pub fn new(project: &'a Project, os: &str, arch: &str) -> (manager: Result<
        BuildManager<'a>,
        BuildError,
    >)
        ensures
            exists|located: Option<Seq<char>>|
                modelled(manager) == #[trigger] configured_manager(
                    project.deep_view(),
                    located,
                    os@,
                    arch@,
                ),
            manager matches Err(error) ==> error.deep_view() is ConfigError,
    {
        let located = find_compiler(project.manifest.toolchain.compiler.as_str());
        let ghost found = located.deep_view();
        let manager = BuildManager::with_compiler(project, located, os, arch);
        assert(modelled(manager) == configured_manager(project.deep_view(), found, os@, arch@));
        manager
    }

    /// Makes a project ready to build, given what the search of the path
    /// for the manifest's compiler gave.
    pub fn with_compiler(
        project: &'a Project,
        located: Option<String>,
        os: &str,
        arch: &str,
    ) -> (manager: Result<BuildManager<'a>, BuildError>)
        ensures
            modelled(manager) == configured_manager(
                project.deep_view(),
                located.deep_view(),
                os@,
                arch@,
            ),
    {
        let toolchain = match ToolchainConfig::resolve(
            project.manifest.toolchain.compiler.as_str(),
            project.manifest.package.edition.as_str(),
            located,
        ) {
            Ok(toolchain) => toolchain,
            Err(error) => {
                return Err(error);
            },
        };
        let package_manager = if project.manifest.features.packages {
            match PackageManager::new(project.root.as_str(), &project.manifest, os, arch) {
                Ok(backend) => Some(backend),
                Err(error) => {
                    return Err(error);
                },
            }
        } else {
            None
        };
        Ok(BuildManager { project, toolchain, package_manager })
    }

    /// The directory of a profile's outputs.
    pub fn get_build_dir(&self, profile: &str) -> (dir: String)
        ensures
            dir@ == build_dir(self.project.root@, profile@),
    {
        self.project.get_build_dir(profile)
    }

    /// The file name of the project's binary.
    pub fn get_binary_name(&self, windows: bool) -> (name: String)
        ensures
            name@ == binary_name(self.project.manifest.package.name@, windows),
    {
        self.project.get_binary_name(windows)
    }

    /// What a build with `profile` hands to its compilations and to its
    /// link step.
    pub fn context(&self, profile: BuildProfile, windows: bool) -> (context: BuildContext)
        ensures
            context.deep_view() == context_of(self.deep_view(), profile, windows),
    {
        let paths = match &self.package_manager {
            Some(backend) => backend.resolve(&self.project.manifest),
            None => PackagePathSet::none(),
        };
        let dir = self.get_build_dir(profile.dir_name().as_str());
        let name = self.get_binary_name(windows);
        BuildContext {
            compiler: self.toolchain.compiler_executable.clone(),
            flags: self.toolchain.base_flags(profile),
            include_paths: paths.include_dirs,
            lib_paths: paths.lib_dirs,
            link_libs: self.project.manifest.link_libraries(),
            profile,
            windows,
            obj_root: join_paths(dir.as_str(), "obj"),
            output_path: join_paths(dir.as_str(), name.as_str()),
            build_dir: dir,
        }
    }

    /// Starts a build with `profile`.
    pub fn begin(&self, profile: BuildProfile, windows: bool) -> (session: BuildSession)
        ensures
            session.deep_view() == started(self.deep_view(), profile, windows),
            session.deep_view().wf(),
    {
        let session = BuildSession {
            phase: BuildPhase::Collecting,
            root: self.project.root.clone(),
            source_dir: self.project.get_source_dir(),
            context: self.context(profile, windows),
            units: Vec::new(),
            directories: Vec::new(),
            jobs: Vec::new(),
            discard: Vec::new(),
            error: None,
        };
        proof {
            assert(session.units.deep_view() =~= Seq::<CompilationUnitModel>::empty());
            assert(session.directories.deep_view() =~= Seq::<Seq<char>>::empty());
            assert(session.jobs.deep_view() =~= Seq::<CompileJobModel>::empty());
            assert(session.discard.deep_view() =~= Seq::<Seq<char>>::empty());
        }
        session
    }
}

/// Position of the first unit whose source was not found.
pub fn find_first_missing(verdicts: &Vec<Verdict>) -> (at: Option<usize>)
    ensures
        match at {
            Some(i) => i == first_missing(verdicts@),
            None => first_missing(verdicts@) == -1,
        },
{
    let mut i: usize = 0;
    while i < verdicts.len()
        invariant
            i <= verdicts.len(),
            forall|k: int| 0 <= k < i ==> #[trigger] verdicts@[k] != Verdict::SourceMissing,
        decreases verdicts.len() - i,
    {
        if verdicts[i] == Verdict::SourceMissing {
            proof {
                lemma_first_missing(verdicts@);
            }
            return Some(i);
        }
        i += 1;
    }
    proof {
        lemma_first_missing(verdicts@);
    }
    None
}

/// For each verdict, whether it asks for a compilation.
pub fn stale_units(verdicts: &Vec<Verdict>) -> (flags: Vec<bool>)
    ensures
        flags@ == stale_flags(verdicts@),
{
    let mut flags: Vec<bool> = Vec::new();
    let mut i: usize = 0;
    while i < verdicts.len()
        invariant
            i <= verdicts.len(),
            flags@ == stale_flags(verdicts@.take(i as int)),
        decreases verdicts.len() - i,
    {
        let ghost before = flags@;
        flags.push(verdicts[i] == Verdict::Stale);
        assert(stale_flags(verdicts@.take(i + 1)) =~= before.push(
            verdicts[i as int] == Verdict::Stale,
        ));
        i += 1;
    }
    assert(verdicts@.take(i as int) =~= verdicts@);
    flags
}

impl BuildSession {
    /// Takes in the walk of the source directory, or `None` where that
    /// directory does not exist.
    pub fn sources_listed(&mut self, listing: Option<Vec<WalkEntry>>)
        ensures
            final(self).deep_view() == old(self).deep_view().after_listing(listing.deep_view()),
            old(self).deep_view().wf() ==> final(self).deep_view().wf(),
    {
        if self.phase != BuildPhase::Collecting {
            return ;
        }
        match listing {
            None => {
                self.error = Some(
                    BuildError::MissingSourceDirectory { path: self.source_dir.clone() },
                );
                self.phase = BuildPhase::Failed;
            },
            Some(entries) => {
                let sources = select_sources(&entries);
                match collect_units(&sources, self.root.as_str()) {
                    Err(error) => {
                        self.error = Some(error);
                        self.phase = BuildPhase::Failed;
                    },
                    Ok(units) => {
                        let mut directories: Vec<String> = Vec::new();
                        push_text(&mut directories, self.context.build_dir.as_str());
                        push_text(&mut directories, self.context.obj_root.as_str());
                        assert(directories.deep_view() =~= seq![
                            self.context.build_dir@,
                            self.context.obj_root@,
                        ]);
                        push_all(&mut directories, &self.context.object_directories(&units));
                        self.units = units;
                        self.directories = directories;
                        self.phase = BuildPhase::Probing;
                    },
                }
            },
        }
    }

    /// The probe that checks the unit at `index`.
    pub fn probe(&self, index: usize) -> (probe: StalenessProbe)
        requires
            index < self.units.len(),
        ensures
            probe.deep_view() == self.deep_view().probe(index as int),
            probe.deep_view().wf(),
    {
        let unit = &self.units[index];
        assert(self.units.deep_view()[index as int] == unit.deep_view());
        let object = unit.object_path(self.context.obj_root.as_str());
        let depfile = unit.depfile_path(self.context.obj_root.as_str());
        StalenessProbe::new(unit.source_path.as_str(), object.as_str(), depfile.as_str())
    }

    /// Takes in the verdicts on the units, one for each, in their order.
    pub fn verdicts_in(&mut self, verdicts: &Vec<Verdict>)
        ensures
            final(self).deep_view() == old(self).deep_view().after_verdicts(verdicts@),
            old(self).deep_view().wf() ==> final(self).deep_view().wf(),
    {
        if self.phase != BuildPhase::Probing || verdicts.len() != self.units.len() {
            return ;
        }
        let jobs = self.context.schedule(&self.units, &stale_units(verdicts));
        match find_first_missing(verdicts) {
            Some(i) => {
                proof {
                    lemma_first_missing(verdicts@);
                }
                assert(self.units.deep_view()[i as int] == self.units[i as int].deep_view());
                self.error = Some(
                    BuildError::IoError {
                        detail: concatenate(
                            "Source file not found: ",
                            self.units[i].source_path.as_str(),
                        ),
                    },
                );
                self.phase = BuildPhase::Failed;
            },
            None => {
                if jobs.len() == 0 {
                    self.phase = BuildPhase::Linking;
                } else {
                    self.phase = BuildPhase::Compiling;
                }
                self.jobs = jobs;
            },
        }
    }

    /// Takes in how the jobs ended, one outcome for each, in their order.
    pub fn compiled(&mut self, outcomes: &Vec<ToolOutput>)
        ensures
            final(self).deep_view() == old(self).deep_view().after_compilation(
                outcomes.deep_view(),
            ),
            old(self).deep_view().wf() ==> final(self).deep_view().wf(),
    {
        if self.phase != BuildPhase::Compiling || outcomes.len() != self.jobs.len() {
            return ;
        }
        match conclude_compilation(&self.jobs, outcomes) {
            Err(error) => {
                self.discard = objects_to_discard(&self.jobs, outcomes);
                self.error = Some(error);
                self.phase = BuildPhase::Failed;
            },
            Ok(_) => {
                self.phase = BuildPhase::Linking;
            },
        }
    }

    /// What the linker is given.
    pub fn link_spec(&self) -> (spec: LinkSpec)
        ensures
            spec.deep_view() == self.deep_view().link_spec(),
    {
        LinkSpec::new(
            &self.context.object_files(&self.units),
            &self.context.lib_paths,
            &self.context.link_libs,
            self.context.output_path.as_str(),
        )
    }

    /// Takes in how the linker ended.
    pub fn linked(&mut self, outcome: &ToolOutput)
        ensures
            final(self).deep_view() == old(self).deep_view().after_link(outcome.deep_view()),
            old(self).deep_view().wf() ==> final(self).deep_view().wf(),
    {
        if self.phase != BuildPhase::Linking {
            return ;
        }
        if outcome.success {
            self.phase = BuildPhase::Succeeded;
        } else {
            self.error = Some(BuildError::LinkError { stderr: outcome.stderr.clone() });
            self.phase = BuildPhase::Failed;
        }
    }

    /// Ends the build because its caller could not do what was asked: a
    /// directory could not be made, a tool could not be started.
    pub fn interrupted(&mut self, detail: &str)
        ensures
            final(self).deep_view() == old(self).deep_view().after_interruption(detail@),
            old(self).deep_view().wf() ==> final(self).deep_view().wf(),
    {
        if !self.is_finished() {
            self.error = Some(BuildError::IoError { detail: detail.to_string() });
            self.phase = BuildPhase::Failed;
        }
    }

    /// Whether the build is over.
    pub fn is_finished(&self) -> (yes: bool)
        ensures
            yes == self.deep_view().finished(),
    {
        match self.phase {
            BuildPhase::Succeeded => true,
            BuildPhase::Failed => true,
            _ => false,
        }
    }

    /// How the build ended: the path of the binary, or the error; `None`
    /// where the build is not over. A failed build never ends with a binary.
    pub fn into_outcome(self) -> (outcome: Option<Result<String, BuildError>>)
        ensures
            match outcome {
                Some(result) => self.deep_view().outcome() == Some(modelled(result)),
                None => self.deep_view().outcome() is None,
            },
    {
        if !self.is_finished() {
            return None;
        }
        let failed = self.phase == BuildPhase::Failed;
        match self.error {
            Some(error) => Some(Err(error)),
            None => {
                if failed {
                    Some(
                        Err(
                            BuildError::IoError {
                                detail: "The build failed without a recorded error".to_string(),
                            },
                        ),
                    )
                } else {
                    Some(Ok(self.context.output_path))
                }
            },
        }
    }
}

} // verus!
