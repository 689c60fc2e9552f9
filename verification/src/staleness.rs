//! Staleness: whether the object file of a translation unit is out of date.
//!
//! The rule is stated over a `Snapshot`, the part of the file system that a
//! check can see: which paths exist, when each was last modified, and what
//! the readable files hold. A unit needs a rebuild if and only if its object
//! file is absent, or its dependency file is absent, or its source is newer
//! than the object, or a recorded dependency that still exists is newer than
//! the object. Equal times are not newer.
//!
//! The check itself is a `StalenessProbe`. It never touches the file system:
//! it asks one question at a time and is told the answer, so the order of
//! the questions and the decision are verified while the caller does the
//! reading.

use crate::depfile::{dependencies, parse_depfile};
use vstd::prelude::*;

verus! {

/// A modification time, in nanoseconds since the epoch.
#[derive(Clone, Copy, Debug, PartialEq, Eq, Structural)]
pub struct Timestamp {
    pub nanos: u128,
}

impl Timestamp {
    /// Whether `self` is strictly later than `other`.
    pub open spec fn newer_than(self, other: Timestamp) -> bool {
        self.nanos > other.nanos
    }

    /// Tells whether `self` is strictly later than `other`.
    pub fn is_newer_than(&self, other: &Timestamp) -> (yes: bool)
        ensures
            yes == self.newer_than(*other),
    {
        self.nanos > other.nanos
    }
}

/// What a staleness check can see of the file system.
pub struct Snapshot {
    /// The modification time of every path that exists.
    pub modified: Map<Seq<char>, Timestamp>,
    /// The text of every file that can be read.
    pub contents: Map<Seq<char>, Seq<char>>,
}

impl Snapshot {
    /// The modification time of `path`, or `None` where it does not exist.
    pub open spec fn stat(self, path: Seq<char>) -> Option<Timestamp> {
        if self.modified.dom().contains(path) {
            Some(self.modified[path])
        } else {
            None
        }
    }

    /// The text of `path`, or `None` where it cannot be read.
    pub open spec fn read(self, path: Seq<char>) -> Option<Seq<char>> {
        if self.contents.dom().contains(path) {
            Some(self.contents[path])
        } else {
            None
        }
    }

    /// The snapshot after `path` was modified at `at`.
    pub open spec fn touched(self, path: Seq<char>, at: Timestamp) -> Snapshot {
        Snapshot { modified: self.modified.insert(path, at), contents: self.contents }
    }

    /// The snapshot after `path` was deleted.
    pub open spec fn without(self, path: Seq<char>) -> Snapshot {
        Snapshot { modified: self.modified.remove(path), contents: self.contents.remove(path) }
    }
}

/// How a staleness check ends.
#[derive(Clone, Copy, Debug, PartialEq, Eq, Structural)]
pub enum Verdict {
    /// The object file is up to date and is used as it is.
    Fresh,
    /// The unit has to be compiled.
    Stale,
    /// The object and the dependency file exist and the source cannot be
    /// found: the check fails.
    SourceMissing,
}

/// The dependencies recorded for a unit: those its dependency file names,
/// none where the file cannot be read.
pub open spec fn recorded_dependencies(snapshot: Snapshot, depfile: Seq<char>) -> Seq<Seq<char>> {
    match snapshot.read(depfile) {
        Some(content) => dependencies(content),
        None => Seq::empty(),
    }
}

/// Whether `path` exists and is newer than `than`.
pub open spec fn is_newer(snapshot: Snapshot, path: Seq<char>, than: Timestamp) -> bool {
    match snapshot.stat(path) {
        Some(at) => at.newer_than(than),
        None => false,
    }
}

/// Whether one of `deps[from..]` exists and is newer than `than`.
pub open spec fn any_newer(
    snapshot: Snapshot,
    deps: Seq<Seq<char>>,
    from: int,
    than: Timestamp,
) -> bool {
    exists|i: int| from <= i < deps.len() && is_newer(snapshot, #[trigger] deps[i], than)
}

/// Whether the unit has to be compiled, given that its source exists.
pub open spec fn needs_rebuild(
    snapshot: Snapshot,
    source: Seq<char>,
    object: Seq<char>,
    depfile: Seq<char>,
) -> bool {
    ||| snapshot.stat(object) is None
    ||| snapshot.stat(depfile) is None
    ||| is_newer(snapshot, source, snapshot.stat(object)->0)
    ||| any_newer(snapshot, recorded_dependencies(snapshot, depfile), 0, snapshot.stat(object)->0)
}

/// The verdict on a unit in a snapshot.
pub open spec fn verdict_of(
    snapshot: Snapshot,
    source: Seq<char>,
    object: Seq<char>,
    depfile: Seq<char>,
) -> Verdict {
    if snapshot.stat(object) is Some && snapshot.stat(depfile) is Some && snapshot.stat(source)
        is None {
        Verdict::SourceMissing
    } else if needs_rebuild(snapshot, source, object, depfile) {
        Verdict::Stale
    } else {
        Verdict::Fresh
    }
}

/// Where a probe stands: what it asks next.
#[derive(Clone, Copy, Debug, PartialEq, Eq, Structural)]
pub enum ProbeStage {
    /// The modification time of the object file.
    Object,
    /// Whether the dependency file exists.
    Depfile,
    /// The modification time of the source.
    Source,
    /// The text of the dependency file.
    Content,
    /// The modification time of the next recorded dependency.
    Dependency,
    /// Nothing: the verdict is in.
    Done,
}

/// A question of a probe to the file system.
#[derive(Debug)]
pub enum Query {
    /// When was this path last modified, if it exists?
    Modified { path: String },
    /// What does this file hold, if it can be read?
    Content { path: String },
}

/// What a `Query` holds, as mathematical values.
pub enum QueryModel {
    Modified { path: Seq<char> },
    Content { path: Seq<char> },
}

impl DeepView for Query {
    type V = QueryModel;

    open spec fn deep_view(&self) -> QueryModel {
        match self {
            Query::Modified { path } => QueryModel::Modified { path: path@ },
            Query::Content { path } => QueryModel::Content { path: path@ },
        }
    }
}

/// A staleness check in progress.
#[derive(Debug)]
pub struct StalenessProbe {
    pub source: String,
    pub object: String,
    pub depfile: String,
    pub stage: ProbeStage,
    /// The object's modification time, once it is known.
    pub object_modified: Timestamp,
    /// The recorded dependencies, once the dependency file was read.
    pub dependencies: Vec<String>,
    /// The dependency that is asked about next.
    pub next: usize,
    /// The verdict, once the stage is `Done`.
    pub verdict: Verdict,
}

/// What a `StalenessProbe` holds, as mathematical values.
pub struct ProbeModel {
    pub source: Seq<char>,
    pub object: Seq<char>,
    pub depfile: Seq<char>,
    pub stage: ProbeStage,
    pub object_modified: Timestamp,
    pub dependencies: Seq<Seq<char>>,
    pub next: nat,
    pub verdict: Verdict,
}

impl DeepView for StalenessProbe {
    type V = ProbeModel;

    open spec fn deep_view(&self) -> ProbeModel {
        ProbeModel {
            source: self.source@,
            object: self.object@,
            depfile: self.depfile@,
            stage: self.stage,
            object_modified: self.object_modified,
            dependencies: self.dependencies.deep_view(),
            next: self.next as nat,
            verdict: self.verdict,
        }
    }
}

impl ProbeModel {
    /// A probe that has asked nothing yet.
    pub open spec fn start(source: Seq<char>, object: Seq<char>, depfile: Seq<char>) -> ProbeModel {
        ProbeModel {
            source,
            object,
            depfile,
            stage: ProbeStage::Object,
            object_modified: Timestamp { nanos: 0 },
            dependencies: Seq::empty(),
            next: 0,
            verdict: Verdict::Stale,
        }
    }

    /// While dependencies are asked about, one is left to ask about.
    pub open spec fn wf(self) -> bool {
        self.stage == ProbeStage::Dependency ==> self.next < self.dependencies.len()
    }

    /// The probe with its verdict in.
    pub open spec fn finished(self, verdict: Verdict) -> ProbeModel {
        ProbeModel { stage: ProbeStage::Done, verdict, ..self }
    }

    /// The probe at a later stage.
    pub open spec fn at(self, stage: ProbeStage) -> ProbeModel {
        ProbeModel { stage, ..self }
    }

    /// What the probe asks next, or `None` where the verdict is in.
    pub open spec fn query(self) -> Option<QueryModel> {
        match self.stage {
            ProbeStage::Object => Some(QueryModel::Modified { path: self.object }),
            ProbeStage::Depfile => Some(QueryModel::Modified { path: self.depfile }),
            ProbeStage::Source => Some(QueryModel::Modified { path: self.source }),
            ProbeStage::Content => Some(QueryModel::Content { path: self.depfile }),
            ProbeStage::Dependency => Some(
                QueryModel::Modified { path: self.dependencies[self.next as int] },
            ),
            ProbeStage::Done => None,
        }
    }

    /// The probe after it was told a modification time, or that the path
    /// does not exist. A probe that did not ask for one stays as it is.
    pub open spec fn after_modified(self, answer: Option<Timestamp>) -> ProbeModel {
        match self.stage {
            ProbeStage::Object => match answer {
                None => self.finished(Verdict::Stale),
                Some(at) => ProbeModel {
                    stage: ProbeStage::Depfile,
                    object_modified: at,
                    ..self
                },
            },
            ProbeStage::Depfile => match answer {
                None => self.finished(Verdict::Stale),
                Some(_) => self.at(ProbeStage::Source),
            },
            ProbeStage::Source => match answer {
                None => self.finished(Verdict::SourceMissing),
                Some(at) => if at.newer_than(self.object_modified) {
                    self.finished(Verdict::Stale)
                } else {
                    self.at(ProbeStage::Content)
                },
            },
            ProbeStage::Dependency => if answer is Some && answer->0.newer_than(
                self.object_modified,
            ) {
                self.finished(Verdict::Stale)
            } else if self.next + 1 < self.dependencies.len() {
                ProbeModel { next: self.next + 1, ..self }
            } else {
                self.finished(Verdict::Fresh)
            },
            _ => self,
        }
    }

    /// The probe after it was told the text of the dependency file, or that
    /// the file cannot be read. An unreadable file records no dependency. A
    /// probe that did not ask for the text stays as it is.
    pub open spec fn after_content(self, answer: Option<Seq<char>>) -> ProbeModel {
        let deps = match answer {
            Some(content) => dependencies(content),
            None => Seq::empty(),
        };
        if self.stage != ProbeStage::Content {
            self
        } else if deps.len() == 0 {
            self.finished(Verdict::Fresh)
        } else {
            ProbeModel { stage: ProbeStage::Dependency, dependencies: deps, next: 0, ..self }
        }
    }

    /// The probe after its question was answered from a snapshot.
    pub open spec fn answered_from(self, snapshot: Snapshot) -> ProbeModel {
        match self.query() {
            Some(QueryModel::Modified { path }) => self.after_modified(snapshot.stat(path)),
            Some(QueryModel::Content { path }) => self.after_content(snapshot.read(path)),
            None => self,
        }
    }

    /// A bound on the questions that the probe still asks of a snapshot.
    pub open spec fn questions_left(self, snapshot: Snapshot) -> nat {
        let recorded = recorded_dependencies(snapshot, self.depfile).len();
        match self.stage {
            ProbeStage::Object => recorded + 4,
            ProbeStage::Depfile => recorded + 3,
            ProbeStage::Source => recorded + 2,
            ProbeStage::Content => recorded + 1,
            ProbeStage::Dependency => if self.next < self.dependencies.len() {
                (self.dependencies.len() - self.next) as nat
            } else {
                1
            },
            ProbeStage::Done => 0,
        }
    }

    /// The probe after every question it asks was answered from a snapshot.
    pub open spec fn run(self, snapshot: Snapshot) -> ProbeModel
        decreases self.questions_left(snapshot),
    {
        if self.stage == ProbeStage::Done {
            self
        } else {
            self.answered_from(snapshot).run(snapshot)
        }
    }
}

/// A probe that asks about dependencies ends `Stale` if one of those left
/// exists and is newer than the object, and `Fresh` if none is.
pub proof fn lemma_probe_walks_dependencies(probe: ProbeModel, snapshot: Snapshot)
    requires
        probe.stage == ProbeStage::Dependency,
        probe.wf(),
    ensures
        probe.run(snapshot).stage == ProbeStage::Done,
        probe.run(snapshot).verdict == if any_newer(
            snapshot,
            probe.dependencies,
            probe.next as int,
            probe.object_modified,
        ) {
            Verdict::Stale
        } else {
            Verdict::Fresh
        },
    decreases probe.dependencies.len() - probe.next,
{
    let deps = probe.dependencies;
    let than = probe.object_modified;
    let k = probe.next as int;
    let next = probe.answered_from(snapshot);
    assert(probe.run(snapshot) == next.run(snapshot));
    if is_newer(snapshot, deps[k], than) {
        assert(next.run(snapshot) == next);
    } else if k + 1 < deps.len() {
        lemma_probe_walks_dependencies(next, snapshot);
        assert(any_newer(snapshot, deps, k, than) == any_newer(snapshot, deps, k + 1, than)) by {
            if any_newer(snapshot, deps, k, than) {
                let i = choose|i: int| k <= i < deps.len() && is_newer(snapshot, deps[i], than);
                assert(k + 1 <= i);
            }
        }
    } else {
        assert(next.run(snapshot) == next);
        assert(!any_newer(snapshot, deps, k, than));
    }
}

/// A probe that is answered from a snapshot ends with the verdict that the
/// staleness rule gives for that snapshot.
pub proof fn lemma_probe_decides(
    snapshot: Snapshot,
    source: Seq<char>,
    object: Seq<char>,
    depfile: Seq<char>,
)
    ensures
        ProbeModel::start(source, object, depfile).run(snapshot).stage == ProbeStage::Done,
        ProbeModel::start(source, object, depfile).run(snapshot).verdict == verdict_of(
            snapshot,
            source,
            object,
            depfile,
        ),
{
    let begun = ProbeModel::start(source, object, depfile);
    let at_depfile = begun.answered_from(snapshot);
    assert(begun.run(snapshot) == at_depfile.run(snapshot));
    if snapshot.stat(object) is None {
        assert(at_depfile.run(snapshot) == at_depfile);
    } else {
        let than = snapshot.stat(object)->0;
        let at_source = at_depfile.answered_from(snapshot);
        assert(at_depfile.run(snapshot) == at_source.run(snapshot));
        if snapshot.stat(depfile) is None {
            assert(at_source.run(snapshot) == at_source);
        } else {
            let at_content = at_source.answered_from(snapshot);
            assert(at_source.run(snapshot) == at_content.run(snapshot));
            if snapshot.stat(source) is None || is_newer(snapshot, source, than) {
                assert(at_content.run(snapshot) == at_content);
            } else {
                let at_dependencies = at_content.answered_from(snapshot);
                assert(at_content.run(snapshot) == at_dependencies.run(snapshot));
                let deps = recorded_dependencies(snapshot, depfile);
                if deps.len() == 0 {
                    assert(at_dependencies.run(snapshot) == at_dependencies);
                    assert(!any_newer(snapshot, deps, 0, than));
                } else {
                    lemma_probe_walks_dependencies(at_dependencies, snapshot);
                }
            }
        }
    }
}

/// Header propagation: once a recorded dependency of a unit is modified
/// after the unit's object was written, the unit is stale.
pub proof fn lemma_touched_dependency_is_stale(
    snapshot: Snapshot,
    source: Seq<char>,
    object: Seq<char>,
    depfile: Seq<char>,
    header: Seq<char>,
    at: Timestamp,
)
    requires
        snapshot.stat(object) is Some,
        snapshot.stat(depfile) is Some,
        snapshot.stat(source) is Some,
        recorded_dependencies(snapshot, depfile).contains(header),
        header != object,
        at.newer_than(snapshot.stat(object)->0),
    ensures
        verdict_of(snapshot.touched(header, at), source, object, depfile) == Verdict::Stale,
{
    let after = snapshot.touched(header, at);
    let deps = recorded_dependencies(snapshot, depfile);
    let i = choose|i: int| 0 <= i < deps.len() && deps[i] == header;
    assert(is_newer(after, deps[i], after.stat(object)->0));
}

/// Source edits: once the source of a unit is modified after the unit's
/// object was written, the unit is stale.
pub proof fn lemma_touched_source_is_stale(
    snapshot: Snapshot,
    source: Seq<char>,
    object: Seq<char>,
    depfile: Seq<char>,
    at: Timestamp,
)
    requires
        snapshot.stat(object) is Some,
        source != object,
        at.newer_than(snapshot.stat(object)->0),
    ensures
        verdict_of(snapshot.touched(source, at), source, object, depfile) == Verdict::Stale,
{
}

/// Isolation: a modification of a path that is neither the source of a unit
/// nor one of its outputs nor a dependency it records leaves the unit's
/// verdict as it was.
pub proof fn lemma_touch_elsewhere_changes_nothing(
    snapshot: Snapshot,
    source: Seq<char>,
    object: Seq<char>,
    depfile: Seq<char>,
    touched: Seq<char>,
    at: Timestamp,
)
    requires
        touched != source,
        touched != object,
        touched != depfile,
        !recorded_dependencies(snapshot, depfile).contains(touched),
    ensures
        verdict_of(snapshot.touched(touched, at), source, object, depfile) == verdict_of(
            snapshot,
            source,
            object,
            depfile,
        ),
{
    let after = snapshot.touched(touched, at);
    let deps = recorded_dependencies(snapshot, depfile);
    assert(recorded_dependencies(after, depfile) == deps);
    if snapshot.stat(object) is Some {
        let than = snapshot.stat(object)->0;
        assert forall|i: int| 0 <= i < deps.len() implies is_newer(after, #[trigger] deps[i], than)
            == is_newer(snapshot, deps[i], than) by {
            assert(deps.contains(deps[i]));
        }
        assert(any_newer(after, deps, 0, than) == any_newer(snapshot, deps, 0, than)) by {
            if any_newer(after, deps, 0, than) {
                let i = choose|i: int| 0 <= i < deps.len() && is_newer(after, deps[i], than);
                assert(is_newer(snapshot, deps[i], than));
            }
            if any_newer(snapshot, deps, 0, than) {
                let i = choose|i: int| 0 <= i < deps.len() && is_newer(snapshot, deps[i], than);
                assert(is_newer(after, deps[i], than));
            }
        }
    }
}

/// Missing dependencies: deleting a path that is neither the source of a
/// unit nor one of its outputs never makes a fresh unit stale, and never
/// makes its check fail.
pub proof fn lemma_missing_dependency_is_tolerated(
    snapshot: Snapshot,
    source: Seq<char>,
    object: Seq<char>,
    depfile: Seq<char>,
    missing: Seq<char>,
)
    requires
        missing != source,
        missing != object,
        missing != depfile,
        verdict_of(snapshot, source, object, depfile) == Verdict::Fresh,
    ensures
        verdict_of(snapshot.without(missing), source, object, depfile) == Verdict::Fresh,
{
    let after = snapshot.without(missing);
    let deps = recorded_dependencies(snapshot, depfile);
    assert(recorded_dependencies(after, depfile) == deps);
    let than = snapshot.stat(object)->0;
    if any_newer(after, deps, 0, than) {
        let i = choose|i: int| 0 <= i < deps.len() && is_newer(after, deps[i], than);
        assert(is_newer(snapshot, deps[i], than));
    }
}

/// Whether the outputs of a unit are up to date: the object and the
/// dependency file exist, and the object was written no earlier than the
/// source and every recorded dependency that still exists.
pub open spec fn up_to_date(
    snapshot: Snapshot,
    source: Seq<char>,
    object: Seq<char>,
    depfile: Seq<char>,
) -> bool {
    &&& snapshot.stat(object) is Some
    &&& snapshot.stat(depfile) is Some
    &&& snapshot.stat(source) is Some
    &&& !snapshot.stat(source)->0.newer_than(snapshot.stat(object)->0)
    &&& forall|i: int|
        0 <= i < recorded_dependencies(snapshot, depfile).len() ==> !is_newer(
            snapshot,
            #[trigger] recorded_dependencies(snapshot, depfile)[i],
            snapshot.stat(object)->0,
        )
}

/// A unit is fresh if and only if its outputs are up to date. A
/// dependency that does not exist stands in the way of neither.
pub proof fn lemma_up_to_date_is_fresh(
    snapshot: Snapshot,
    source: Seq<char>,
    object: Seq<char>,
    depfile: Seq<char>,
)
    ensures
        up_to_date(snapshot, source, object, depfile) <==> verdict_of(
            snapshot,
            source,
            object,
            depfile,
        ) == Verdict::Fresh,
{
}

impl StalenessProbe {
    /// Starts the check of one unit.
    pub fn new(source: &str, object: &str, depfile: &str) -> (probe: StalenessProbe)
        ensures
            probe.deep_view() == ProbeModel::start(source@, object@, depfile@),
            probe.deep_view().wf(),
    {
        let probe = StalenessProbe {
            source: source.to_string(),
            object: object.to_string(),
            depfile: depfile.to_string(),
            stage: ProbeStage::Object,
            object_modified: Timestamp { nanos: 0 },
            dependencies: Vec::new(),
            next: 0,
            verdict: Verdict::Stale,
        };
        assert(probe.dependencies.deep_view() =~= Seq::<Seq<char>>::empty());
        probe
    }

    /// What the probe asks next, or `None` where the verdict is in.
    pub fn query(&self) -> (query: Option<Query>)
        requires
            self.deep_view().wf(),
        ensures
            query.deep_view() == self.deep_view().query(),
    {
        match self.stage {
            ProbeStage::Object => Some(Query::Modified { path: self.object.clone() }),
            ProbeStage::Depfile => Some(Query::Modified { path: self.depfile.clone() }),
            ProbeStage::Source => Some(Query::Modified { path: self.source.clone() }),
            ProbeStage::Content => Some(Query::Content { path: self.depfile.clone() }),
            ProbeStage::Dependency => Some(
                Query::Modified { path: self.dependencies[self.next].clone() },
            ),
            ProbeStage::Done => None,
        }
    }

    /// Tells the probe the modification time it asked for, or that the path
    /// does not exist.
    pub fn answer_modified(&mut self, answer: Option<Timestamp>)
        ensures
            final(self).deep_view() == old(self).deep_view().after_modified(answer),
            final(self).deep_view().wf(),
    {
        match self.stage {
            ProbeStage::Object => match answer {
                None => {
                    self.stage = ProbeStage::Done;
                    self.verdict = Verdict::Stale;
                },
                Some(at) => {
                    self.stage = ProbeStage::Depfile;
                    self.object_modified = at;
                },
            },
            ProbeStage::Depfile => match answer {
                None => {
                    self.stage = ProbeStage::Done;
                    self.verdict = Verdict::Stale;
                },
                Some(_) => {
                    self.stage = ProbeStage::Source;
                },
            },
            ProbeStage::Source => match answer {
                None => {
                    self.stage = ProbeStage::Done;
                    self.verdict = Verdict::SourceMissing;
                },
                Some(at) => {
                    if at.is_newer_than(&self.object_modified) {
                        self.stage = ProbeStage::Done;
                        self.verdict = Verdict::Stale;
                    } else {
                        self.stage = ProbeStage::Content;
                    }
                },
            },
            ProbeStage::Dependency => {
                assert(self.dependencies.deep_view().len() == self.dependencies.len());
                let newer = match answer {
                    Some(at) => at.is_newer_than(&self.object_modified),
                    None => false,
                };
                if newer {
                    self.stage = ProbeStage::Done;
                    self.verdict = Verdict::Stale;
                } else if self.next < self.dependencies.len() && self.next + 1
                    < self.dependencies.len() {
                    self.next = self.next + 1;
                } else {
                    self.stage = ProbeStage::Done;
                    self.verdict = Verdict::Fresh;
                }
            },
            _ => {},
        }
    }

    /// Tells the probe the text of the dependency file, or that the file
    /// cannot be read.
    pub fn answer_content(&mut self, answer: Option<String>)
        ensures
            final(self).deep_view() == old(self).deep_view().after_content(answer.deep_view()),
            old(self).deep_view().wf() ==> final(self).deep_view().wf(),
    {
        match self.stage {
            ProbeStage::Content => {},
            _ => {
                return ;
            },
        }
        let deps = match answer {
            Some(content) => parse_depfile(content.as_str()),
            None => {
                let none: Vec<String> = Vec::new();
                assert(none.deep_view() =~= Seq::<Seq<char>>::empty());
                none
            },
        };
        if deps.len() == 0 {
            self.stage = ProbeStage::Done;
            self.verdict = Verdict::Fresh;
        } else {
            self.stage = ProbeStage::Dependency;
            self.dependencies = deps;
            self.next = 0;
        }
    }

    /// The verdict, once it is in.
    pub fn verdict(&self) -> (verdict: Option<Verdict>)
        ensures
            verdict == if self.stage == ProbeStage::Done {
                Some(self.verdict)
            } else {
                None
            },
    {
        match self.stage {
            ProbeStage::Done => Some(self.verdict),
            _ => None,
        }
    }
}

} // verus!
