//! Compilation scheduling: which units are compiled, with which command,
//! and what the results of the compilations mean for the build.
//!
//! Every stale unit gets one job; fresh units get none and their object
//! files are used as they are. All jobs run to the end, whatever the others
//! do. The build then fails with the first job, in the order of the units,
//! that the compiler rejected, and the object file of every rejected job is
//! discarded so that no later check takes it for a fresh one.

use crate::error::{modelled, BuildError, BuildErrorModel};
use crate::path::{parent, parent_of};
use crate::profile::BuildProfile;
use crate::sources::{
    depfile_path_for, object_path_for, CompilationUnit, CompilationUnitModel,
};
use crate::text::{join_from, joined, prefixed, push_all, push_text, with_prefix};
use vstd::prelude::*;

verus! {

/// What a build hands to every compilation and to the link step. It is put
/// together once and only read afterwards.
#[derive(Debug)]
pub struct BuildContext {
    /// The compiler, which also drives the linker.
    pub compiler: String,
    /// The flags that do not depend on the unit.
    pub flags: Vec<String>,
    pub include_paths: Vec<String>,
    pub lib_paths: Vec<String>,
    pub link_libs: Vec<String>,
    pub profile: BuildProfile,
    /// Whether the build is for Windows, where the binary is named `.exe`.
    /// No flag depends on it.
    pub windows: bool,
    /// The directory of the profile's outputs.
    pub build_dir: String,
    /// The directory of the profile's object files.
    pub obj_root: String,
    /// Where the linked binary goes.
    pub output_path: String,
}

/// What a `BuildContext` holds, as mathematical values.
pub struct BuildContextModel {
    pub compiler: Seq<char>,
    pub flags: Seq<Seq<char>>,
    pub include_paths: Seq<Seq<char>>,
    pub lib_paths: Seq<Seq<char>>,
    pub link_libs: Seq<Seq<char>>,
    pub profile: BuildProfile,
    pub windows: bool,
    pub build_dir: Seq<char>,
    pub obj_root: Seq<char>,
    pub output_path: Seq<char>,
}

impl DeepView for BuildContext {
    type V = BuildContextModel;

    open spec fn deep_view(&self) -> BuildContextModel {
        BuildContextModel {
            compiler: self.compiler@,
            flags: self.flags.deep_view(),
            include_paths: self.include_paths.deep_view(),
            lib_paths: self.lib_paths.deep_view(),
            link_libs: self.link_libs.deep_view(),
            profile: self.profile,
            windows: self.windows,
            build_dir: self.build_dir@,
            obj_root: self.obj_root@,
            output_path: self.output_path@,
        }
    }
}

/// How a compiler or linker process ended.
#[derive(Debug)]
pub struct ToolOutput {
    /// Whether the process exited with success.
    pub success: bool,
    /// What it wrote to its error stream.
    pub stderr: String,
}

/// What a `ToolOutput` holds, as mathematical values.
pub struct ToolOutputModel {
    pub success: bool,
    pub stderr: Seq<char>,
}

impl DeepView for ToolOutput {
    type V = ToolOutputModel;

    open spec fn deep_view(&self) -> ToolOutputModel {
        ToolOutputModel { success: self.success, stderr: self.stderr@ }
    }
}

/// One compiler invocation.
#[derive(Debug)]
pub struct CompileJob {
    pub source_path: String,
    pub object_path: String,
    pub depfile_path: String,
    pub program: String,
    pub arguments: Vec<String>,
}

/// What a `CompileJob` holds, as mathematical values.
pub struct CompileJobModel {
    pub source_path: Seq<char>,
    pub object_path: Seq<char>,
    pub depfile_path: Seq<char>,
    pub program: Seq<char>,
    pub arguments: Seq<Seq<char>>,
}

impl DeepView for CompileJob {
    type V = CompileJobModel;

    open spec fn deep_view(&self) -> CompileJobModel {
        CompileJobModel {
            source_path: self.source_path@,
            object_path: self.object_path@,
            depfile_path: self.depfile_path@,
            program: self.program@,
            arguments: self.arguments.deep_view(),
        }
    }
}

/// The arguments of one compilation: `-c <source> -o <object>`, the flags
/// of the build, `-I<dir>` for each include directory, and
/// `-MMD -MF <depfile>`.
pub open spec fn compile_arguments(
    context: BuildContextModel,
    source: Seq<char>,
    object: Seq<char>,
    depfile: Seq<char>,
) -> Seq<Seq<char>> {
    seq!["-c"@, source, "-o"@, object] + context.flags + with_prefix(
        "-I"@,
        context.include_paths,
    ) + seq!["-MMD"@, "-MF"@, depfile]
}

/// The job that compiles `unit`.
pub open spec fn job_of(context: BuildContextModel, unit: CompilationUnitModel) -> CompileJobModel {
    let object = object_path_for(context.obj_root, unit.relative_path);
    let depfile = depfile_path_for(context.obj_root, unit.relative_path);
    CompileJobModel {
        source_path: unit.source_path,
        object_path: object,
        depfile_path: depfile,
        program: context.compiler,
        arguments: compile_arguments(context, unit.source_path, object, depfile),
    }
}

/// The jobs of a build: one for each stale unit, in the order of the units.
pub open spec fn scheduled(
    context: BuildContextModel,
    units: Seq<CompilationUnitModel>,
    stale: Seq<bool>,
) -> Seq<CompileJobModel>
    decreases units.len(),
{
    if units.len() == 0 || stale.len() != units.len() {
        Seq::empty()
    } else {
        let before = scheduled(context, units.drop_last(), stale.drop_last());
        if stale.last() {
            before.push(job_of(context, units.last()))
        } else {
            before
        }
    }
}

/// The object files of all units, stale or fresh, in the order of the units.
pub open spec fn object_files(
    context: BuildContextModel,
    units: Seq<CompilationUnitModel>,
) -> Seq<Seq<char>> {
    units.map_values(
        |unit: CompilationUnitModel| object_path_for(context.obj_root, unit.relative_path),
    )
}

/// The directories that hold the object files of the units, in the order of
/// the units.
pub open spec fn object_directories(
    context: BuildContextModel,
    units: Seq<CompilationUnitModel>,
) -> Seq<Seq<char>>
    decreases units.len(),
{
    if units.len() == 0 {
        Seq::empty()
    } else {
        let before = object_directories(context, units.drop_last());
        match parent(object_path_for(context.obj_root, units.last().relative_path)) {
            Some(dir) => before.push(dir),
            None => before,
        }
    }
}

/// One record of a compilation database: how a source file is compiled,
/// for the tools that want to know.
#[derive(Debug)]
pub struct CompileCommand {
    pub directory: String,
    pub command: String,
    pub file: String,
}

/// What a `CompileCommand` holds, as mathematical values.
pub struct CompileCommandModel {
    pub directory: Seq<char>,
    pub command: Seq<char>,
    pub file: Seq<char>,
}

impl DeepView for CompileCommand {
    type V = CompileCommandModel;

    open spec fn deep_view(&self) -> CompileCommandModel {
        CompileCommandModel {
            directory: self.directory@,
            command: self.command@,
            file: self.file@,
        }
    }
}

/// The record of `unit`: the directory the compiler is run in, the program
/// and its arguments with one blank between each, and the source file.
pub open spec fn command_of(
    context: BuildContextModel,
    directory: Seq<char>,
    unit: CompilationUnitModel,
) -> CompileCommandModel {
    let job = job_of(context, unit);
    CompileCommandModel {
        directory,
        command: joined(seq![job.program] + job.arguments, " "@),
        file: unit.source_path,
    }
}

/// The compilation database of a build: one record for each unit, stale or
/// fresh, in the order of the units.
pub open spec fn compilation_database(
    context: BuildContextModel,
    directory: Seq<char>,
    units: Seq<CompilationUnitModel>,
) -> Seq<CompileCommandModel> {
    units.map_values(|unit: CompilationUnitModel| command_of(context, directory, unit))
}

/// Position of the first process that failed, or `-1` where all succeeded.
pub open spec fn first_failure(outcomes: Seq<ToolOutputModel>) -> int
    decreases outcomes.len(),
{
    if outcomes.len() == 0 {
        -1
    } else if first_failure(outcomes.drop_last()) >= 0 {
        first_failure(outcomes.drop_last())
    } else if !outcomes.last().success {
        outcomes.len() - 1
    } else {
        -1
    }
}

/// What the compilations mean for the build: it goes on where all
/// succeeded, and fails with the source and the diagnostics of the first
/// job that did not.
pub open spec fn compilation_result(
    jobs: Seq<CompileJobModel>,
    outcomes: Seq<ToolOutputModel>,
) -> Result<(), BuildErrorModel> {
    let failed = first_failure(outcomes);
    if 0 <= failed < jobs.len() {
        Err(
            BuildErrorModel::CompileError {
                source_path: jobs[failed].source_path,
                stderr: outcomes[failed].stderr,
            },
        )
    } else {
        Ok(())
    }
}

/// The object files of the jobs that failed, in the order of the jobs.
pub open spec fn failed_objects(
    jobs: Seq<CompileJobModel>,
    outcomes: Seq<ToolOutputModel>,
) -> Seq<Seq<char>>
    decreases jobs.len(),
{
    if jobs.len() == 0 || outcomes.len() != jobs.len() {
        Seq::empty()
    } else {
        let before = failed_objects(jobs.drop_last(), outcomes.drop_last());
        if outcomes.last().success {
            before
        } else {
            before.push(jobs.last().object_path)
        }
    }
}

/// `first_failure` finds a failure, and none comes before it.
pub proof fn lemma_first_failure(outcomes: Seq<ToolOutputModel>)
    ensures
        -1 <= first_failure(outcomes) < outcomes.len(),
        first_failure(outcomes) >= 0 ==> !outcomes[first_failure(outcomes)].success,
        forall|k: int|
            0 <= k < outcomes.len() && (first_failure(outcomes) < 0 || k < first_failure(outcomes))
                ==> (#[trigger] outcomes[k]).success,
    decreases outcomes.len(),
{
    if outcomes.len() > 0 {
        let front = outcomes.drop_last();
        lemma_first_failure(front);
        assert forall|k: int|
            0 <= k < outcomes.len() && (first_failure(outcomes) < 0 || k < first_failure(
                outcomes,
            )) implies (#[trigger] outcomes[k]).success by {
            if k < front.len() {
                assert(outcomes[k] == front[k]);
            }
        }
    }
}

/// A build in which no unit is stale compiles nothing.
pub proof fn lemma_nothing_stale_schedules_nothing(
    context: BuildContextModel,
    units: Seq<CompilationUnitModel>,
    stale: Seq<bool>,
)
    requires
        stale.len() == units.len(),
        forall|i: int| 0 <= i < stale.len() ==> !#[trigger] stale[i],
    ensures
        scheduled(context, units, stale).len() == 0,
    decreases units.len(),
{
    if units.len() > 0 {
        let s = stale.drop_last();
        assert forall|i: int| 0 <= i < s.len() implies !#[trigger] s[i] by {
            assert(s[i] == stale[i]);
        }
        lemma_nothing_stale_schedules_nothing(context, units.drop_last(), s);
        assert(!stale[stale.len() - 1]);
    }
}

/// The number of stale units among the first `upto`.
pub open spec fn stale_count(stale: Seq<bool>, upto: int) -> nat
    decreases upto,
{
    if upto <= 0 || upto > stale.len() {
        0
    } else if stale[upto - 1] {
        stale_count(stale, upto - 1) + 1
    } else {
        stale_count(stale, upto - 1)
    }
}

/// Exactly the stale units are compiled: the job of the `i`-th unit, where
/// that unit is stale, stands in the schedule behind the jobs of the stale
/// units before it, and the schedule holds no other job.
pub proof fn lemma_schedule_is_the_stale_units(
    context: BuildContextModel,
    units: Seq<CompilationUnitModel>,
    stale: Seq<bool>,
)
    requires
        stale.len() == units.len(),
    ensures
        scheduled(context, units, stale).len() == stale_count(stale, stale.len() as int),
        forall|i: int|
            0 <= i < units.len() && #[trigger] stale[i] ==> {
                &&& stale_count(stale, i) < scheduled(context, units, stale).len()
                &&& scheduled(context, units, stale)[stale_count(stale, i) as int] == job_of(
                    context,
                    units[i],
                )
            },
    decreases units.len(),
{
    if units.len() > 0 {
        let u = units.drop_last();
        let s = stale.drop_last();
        let n = units.len() as int;
        lemma_schedule_is_the_stale_units(context, u, s);
        lemma_stale_count_prefix(stale, s, n - 1);
        assert forall|i: int| 0 <= i < units.len() && #[trigger] stale[i] implies {
            &&& stale_count(stale, i) < scheduled(context, units, stale).len()
            &&& scheduled(context, units, stale)[stale_count(stale, i) as int] == job_of(
                context,
                units[i],
            )
        } by {
            lemma_stale_count_prefix(stale, s, i);
            if i < n - 1 {
                assert(s[i] == stale[i]);
                assert(u[i] == units[i]);
            }
        }
    }
}

/// Counting in a list and in its front part agree within the front part.
pub proof fn lemma_stale_count_prefix(stale: Seq<bool>, front: Seq<bool>, upto: int)
    requires
        front == stale.drop_last(),
        stale.len() > 0,
        0 <= upto < stale.len(),
    ensures
        stale_count(front, upto) == stale_count(stale, upto),
    decreases upto,
{
    if upto > 0 {
        lemma_stale_count_prefix(stale, front, upto - 1);
        assert(front[upto - 1] == stale[upto - 1]);
    }
}

impl BuildContext {
    /// The job that compiles `unit`.
    pub fn compile_job(&self, unit: &CompilationUnit) -> (job: CompileJob)
        ensures
            job.deep_view() == job_of(self.deep_view(), unit.deep_view()),
    {
        let object = unit.object_path(self.obj_root.as_str());
        let depfile = unit.depfile_path(self.obj_root.as_str());
        let mut arguments: Vec<String> = Vec::new();
        assert(arguments.deep_view() =~= Seq::<Seq<char>>::empty());
        push_text(&mut arguments, "-c");
        push_text(&mut arguments, unit.source_path.as_str());
        push_text(&mut arguments, "-o");
        push_text(&mut arguments, object.as_str());
        assert(arguments.deep_view() =~= seq!["-c"@, unit.source_path@, "-o"@, object@]);
        push_all(&mut arguments, &self.flags);
        push_all(&mut arguments, &prefixed("-I", &self.include_paths));
        let ghost head = arguments.deep_view();
        push_text(&mut arguments, "-MMD");
        push_text(&mut arguments, "-MF");
        push_text(&mut arguments, depfile.as_str());
        assert(arguments.deep_view() =~= head + seq!["-MMD"@, "-MF"@, depfile@]);
        CompileJob {
            source_path: unit.source_path.clone(),
            object_path: object,
            depfile_path: depfile,
            program: self.compiler.clone(),
            arguments,
        }
    }

    /// The jobs of a build: one for each stale unit, in the order of the
    /// units.
    pub fn schedule(&self, units: &Vec<CompilationUnit>, stale: &Vec<bool>) -> (jobs: Vec<
        CompileJob,
    >)
        ensures
            jobs.deep_view() == scheduled(self.deep_view(), units.deep_view(), stale@),
    {
        let ghost all = units.deep_view();
        let mut jobs: Vec<CompileJob> = Vec::new();
        let mut i: usize = 0;
        proof {
            assert(jobs.deep_view() =~= Seq::<CompileJobModel>::empty());
        }
        if stale.len() != units.len() {
            return jobs;
        }
        while i < units.len()
            invariant
                i <= units.len(),
                stale.len() == units.len(),
                all == units.deep_view(),
                jobs.deep_view() == scheduled(
                    self.deep_view(),
                    all.take(i as int),
                    stale@.take(i as int),
                ),
            decreases units.len() - i,
        {
            let ghost before = jobs.deep_view();
            proof {
                assert(all.take(i + 1).drop_last() =~= all.take(i as int));
                assert(stale@.take(i + 1).drop_last() =~= stale@.take(i as int));
                assert(all.take(i + 1).last() == units[i as int].deep_view());
                assert(stale@.take(i + 1).last() == stale[i as int]);
            }
            if stale[i] {
                let job = self.compile_job(&units[i]);
                jobs.push(job);
                assert(jobs.deep_view() =~= before.push(job_of(self.deep_view(), all[i as int])));
            }
            i += 1;
        }
        proof {
            assert(all.take(i as int) =~= all);
            assert(stale@.take(i as int) =~= stale@);
        }
        jobs
    }

    /// The object files of all units, in the order of the units.
    pub fn object_files(&self, units: &Vec<CompilationUnit>) -> (objects: Vec<String>)
        ensures
            objects.deep_view() == object_files(self.deep_view(), units.deep_view()),
    {
        let ghost all = units.deep_view();
        let mut objects: Vec<String> = Vec::new();
        let mut i: usize = 0;
        while i < units.len()
            invariant
                i <= units.len(),
                all == units.deep_view(),
                objects.deep_view() == object_files(self.deep_view(), all.take(i as int)),
            decreases units.len() - i,
        {
            let ghost before = objects.deep_view();
            let object = units[i].object_path(self.obj_root.as_str());
            push_text(&mut objects, object.as_str());
            proof {
                assert(all[i as int] == units[i as int].deep_view());
                assert(object_files(self.deep_view(), all.take(i + 1)) =~= before.push(object@));
            }
            i += 1;
        }
        assert(all.take(i as int) =~= all);
        objects
    }

    /// The compilation database of a build in `directory`.
    pub fn compilation_database(&self, directory: &str, units: &Vec<CompilationUnit>) -> (records:
        Vec<CompileCommand>)
        ensures
            records.deep_view() == compilation_database(
                self.deep_view(),
                directory@,
                units.deep_view(),
            ),
    {
        let ghost all = units.deep_view();
        let mut records: Vec<CompileCommand> = Vec::new();
        let mut i: usize = 0;
        while i < units.len()
            invariant
                i <= units.len(),
                all == units.deep_view(),
                records.deep_view() == compilation_database(
                    self.deep_view(),
                    directory@,
                    all.take(i as int),
                ),
            decreases units.len() - i,
        {
            let ghost before = records.deep_view();
            let job = self.compile_job(&units[i]);
            let mut line: Vec<String> = Vec::new();
            push_text(&mut line, job.program.as_str());
            assert(line.deep_view() =~= seq![job.program@]);
            push_all(&mut line, &job.arguments);
            assert(line.deep_view().skip(0) =~= line.deep_view());
            let record = CompileCommand {
                directory: directory.to_string(),
                command: join_from(&line, 0, " "),
                file: units[i].source_path.clone(),
            };
            records.push(record);
            proof {
                let entry = command_of(self.deep_view(), directory@, all[i as int]);
                assert(all[i as int] == units[i as int].deep_view());
                assert(records.deep_view() =~= before.push(entry));
                assert(compilation_database(self.deep_view(), directory@, all.take(i + 1))
                    =~= before.push(entry));
            }
            i += 1;
        }
        assert(all.take(i as int) =~= all);
        records
    }

    /// The directories that hold the object files of the units.
    pub fn object_directories(&self, units: &Vec<CompilationUnit>) -> (dirs: Vec<String>)
        ensures
            dirs.deep_view() == object_directories(self.deep_view(), units.deep_view()),
    {
        let ghost all = units.deep_view();
        let mut dirs: Vec<String> = Vec::new();
        let mut i: usize = 0;
        proof {
            assert(dirs.deep_view() =~= Seq::<Seq<char>>::empty());
        }
        while i < units.len()
            invariant
                i <= units.len(),
                all == units.deep_view(),
                dirs.deep_view() == object_directories(self.deep_view(), all.take(i as int)),
            decreases units.len() - i,
        {
            proof {
                assert(all.take(i + 1).drop_last() =~= all.take(i as int));
                assert(all.take(i + 1).last() == units[i as int].deep_view());
            }
            let object = units[i].object_path(self.obj_root.as_str());
            if let Some(dir) = parent_of(object.as_str()) {
                push_text(&mut dirs, dir.as_str());
            }
            i += 1;
        }
        assert(all.take(i as int) =~= all);
        dirs
    }
}

/// Position of the first process that failed.
pub fn find_first_failure(outcomes: &Vec<ToolOutput>) -> (at: Option<usize>)
    ensures
        match at {
            Some(i) => i == first_failure(outcomes.deep_view()),
            None => first_failure(outcomes.deep_view()) == -1,
        },
{
    let ghost all = outcomes.deep_view();
    let mut i: usize = 0;
    while i < outcomes.len()
        invariant
            i <= outcomes.len(),
            all == outcomes.deep_view(),
            forall|k: int| 0 <= k < i ==> (#[trigger] all[k]).success,
        decreases outcomes.len() - i,
    {
        assert(all[i as int] == outcomes[i as int].deep_view());
        if !outcomes[i].success {
            proof {
                lemma_first_failure(all);
                let found = first_failure(all);
                if found < 0 || found > i {
                    assert(all[i as int].success);
                }
            }
            return Some(i);
        }
        i += 1;
    }
    proof {
        lemma_first_failure(all);
    }
    None
}

/// Decides what the compilations mean for the build.
pub fn conclude_compilation(jobs: &Vec<CompileJob>, outcomes: &Vec<ToolOutput>) -> (result: Result<
    (),
    BuildError,
>)
    ensures
        modelled(result) == compilation_result(jobs.deep_view(), outcomes.deep_view()),
{
    match find_first_failure(outcomes) {
        Some(i) => {
            proof {
                lemma_first_failure(outcomes.deep_view());
            }
            if i < jobs.len() {
                proof {
                    assert(jobs.deep_view()[i as int] == jobs[i as int].deep_view());
                    assert(outcomes.deep_view()[i as int] == outcomes[i as int].deep_view());
                }
                Err(
                    BuildError::CompileError {
                        source_path: jobs[i].source_path.clone(),
                        stderr: outcomes[i].stderr.clone(),
                    },
                )
            } else {
                Ok(())
            }
        },
        None => Ok(()),
    }
}

/// The object files to discard: those of the jobs that failed.
pub fn objects_to_discard(jobs: &Vec<CompileJob>, outcomes: &Vec<ToolOutput>) -> (objects: Vec<
    String,
>)
    ensures
        objects.deep_view() == failed_objects(jobs.deep_view(), outcomes.deep_view()),
{
    let ghost all = jobs.deep_view();
    let ghost ends = outcomes.deep_view();
    let mut objects: Vec<String> = Vec::new();
    let mut i: usize = 0;
    proof {
        assert(objects.deep_view() =~= Seq::<Seq<char>>::empty());
    }
    if outcomes.len() != jobs.len() {
        return objects;
    }
    while i < jobs.len()
        invariant
            i <= jobs.len(),
            outcomes.len() == jobs.len(),
            all == jobs.deep_view(),
            ends == outcomes.deep_view(),
            objects.deep_view() == failed_objects(all.take(i as int), ends.take(i as int)),
        decreases jobs.len() - i,
    {
        proof {
            assert(all.take(i + 1).drop_last() =~= all.take(i as int));
            assert(ends.take(i + 1).drop_last() =~= ends.take(i as int));
            assert(all.take(i + 1).last() == jobs[i as int].deep_view());
            assert(ends.take(i + 1).last() == outcomes[i as int].deep_view());
        }
        if !outcomes[i].success {
            push_text(&mut objects, jobs[i].object_path.as_str());
        }
        i += 1;
    }
    proof {
        assert(all.take(i as int) =~= all);
        assert(ends.take(i as int) =~= ends);
    }
    objects
}

} // verus!
