//! Source collection: which files of a directory walk are translation
//! units, and where the outputs of each unit go.

use crate::error::{modelled, BuildError, BuildErrorModel};
use crate::path::{
    extension, extension_of, is_absolute, join, join_paths, lemma_with_extension_of_join,
    lemma_with_extension_shape, names_file, replace_extension, skip_separators, strip_base,
    strip_prefix, with_extension,
};
use crate::text::equal;
use vstd::prelude::*;

verus! {

/// One entry of a directory walk.
#[derive(Debug)]
pub struct WalkEntry {
    pub path: String,
    pub is_file: bool,
}

/// What a `WalkEntry` holds, as mathematical values.
pub struct WalkEntryModel {
    pub path: Seq<char>,
    pub is_file: bool,
}

impl DeepView for WalkEntry {
    type V = WalkEntryModel;

    open spec fn deep_view(&self) -> WalkEntryModel {
        WalkEntryModel { path: self.path@, is_file: self.is_file }
    }
}

/// One source file that is compiled on its own into one object file.
#[derive(Debug)]
pub struct CompilationUnit {
    /// Where the source is.
    pub source_path: String,
    /// The same place as seen from the project root.
    pub relative_path: String,
}

/// What a `CompilationUnit` holds, as mathematical values.
pub struct CompilationUnitModel {
    pub source_path: Seq<char>,
    pub relative_path: Seq<char>,
}

impl DeepView for CompilationUnit {
    type V = CompilationUnitModel;

    open spec fn deep_view(&self) -> CompilationUnitModel {
        CompilationUnitModel {
            source_path: self.source_path@,
            relative_path: self.relative_path@,
        }
    }
}

/// Whether `ext` is the extension of a C or C++ source file.
pub open spec fn is_source_extension(ext: Seq<char>) -> bool {
    ext == "cpp"@ || ext == "cxx"@ || ext == "cc"@ || ext == "c"@
}

/// Whether `path` has the extension of a source file.
pub open spec fn is_source_path(path: Seq<char>) -> bool {
    match extension(path) {
        Some(ext) => is_source_extension(ext),
        None => false,
    }
}

/// Whether a walk entry is a translation unit: a file with a source
/// extension.
pub open spec fn is_source_entry(entry: WalkEntryModel) -> bool {
    entry.is_file && is_source_path(entry.path)
}

/// The paths of the translation units among `entries`, in walk order.
pub open spec fn selected_sources(entries: Seq<WalkEntryModel>) -> Seq<Seq<char>> {
    entries.filter(|entry: WalkEntryModel| is_source_entry(entry)).map_values(
        |entry: WalkEntryModel| entry.path,
    )
}

/// `source` as seen from `root`: what follows `root` where the source lies
/// beneath it, the source path itself where it does not.
pub open spec fn relative_to(source: Seq<char>, root: Seq<char>) -> Seq<char> {
    match strip_prefix(source, root) {
        Some(rest) => rest,
        None => source,
    }
}

/// The unit of a source file in a project.
pub open spec fn unit_of(source: Seq<char>, root: Seq<char>) -> CompilationUnitModel {
    CompilationUnitModel { source_path: source, relative_path: relative_to(source, root) }
}

/// The units of a list of source files, in the same order.
pub open spec fn units_of(sources: Seq<Seq<char>>, root: Seq<char>) -> Seq<CompilationUnitModel> {
    sources.map_values(|source: Seq<char>| unit_of(source, root))
}

/// Where the object file of a unit goes: its relative path beneath the
/// object directory, with the extension `o`.
pub open spec fn object_path_for(obj_root: Seq<char>, relative: Seq<char>) -> Seq<char> {
    with_extension(join(obj_root, relative), "o"@)
}

/// Where the dependency file of a unit goes: beside the object file, with
/// the extension `d`.
pub open spec fn depfile_path_for(obj_root: Seq<char>, relative: Seq<char>) -> Seq<char> {
    with_extension(object_path_for(obj_root, relative), "d"@)
}

/// The units of a build, or the error of a build without any.
pub open spec fn collected_units(sources: Seq<Seq<char>>, root: Seq<char>) -> Result<
    Seq<CompilationUnitModel>,
    BuildErrorModel,
> {
    if sources.len() == 0 {
        Err(BuildErrorModel::EmptySourceSet)
    } else {
        Ok(units_of(sources, root))
    }
}

/// A relative path placed beneath a root is found again when the root is
/// taken away.
pub proof fn lemma_relative_of_join(root: Seq<char>, rel: Seq<char>)
    requires
        root.len() > 0,
        rel.len() > 0,
        !is_absolute(rel),
    ensures
        relative_to(join(root, rel), root) == rel,
{
    let p = join(root, rel);
    assert(root.is_prefix_of(p)) by {
        assert(p.subrange(0, root.len() as int) =~= root);
    }
    assert(skip_separators(rel) == rel);
    if root.last() == '/' {
        assert(p.skip(root.len() as int) =~= rel);
    } else {
        let tail = p.skip(root.len() as int);
        assert(tail =~= seq!['/'] + rel);
        assert(tail.skip(1) =~= rel);
        assert(skip_separators(tail) == skip_separators(rel));
    }
}

/// Path mirroring: the object file of a source lies beneath the object
/// directory at the source's path relative to the project root, with the
/// extension replaced, wherever the project root is.
pub proof fn lemma_object_path_mirrors(root: Seq<char>, obj_root: Seq<char>, rel: Seq<char>)
    requires
        root.len() > 0,
        !is_absolute(rel),
        names_file(rel),
    ensures
        object_path_for(obj_root, unit_of(join(root, rel), root).relative_path) == join(
            obj_root,
            with_extension(rel, "o"@),
        ),
        depfile_path_for(obj_root, unit_of(join(root, rel), root).relative_path) == join(
            obj_root,
            with_extension(rel, "d"@),
        ),
{
    reveal_strlit("o");
    reveal_strlit("d");
    lemma_relative_of_join(root, rel);
    lemma_with_extension_of_join(obj_root, rel, "o"@);
    let object = with_extension(rel, "o"@);
    lemma_with_extension_shape(rel, "o"@);
    lemma_with_extension_of_join(obj_root, object, "d"@);
    assert(with_extension(object, "d"@) == with_extension(rel, "d"@));
}

/// Tells whether `path` has the extension of a source file.
pub fn has_source_extension(path: &str) -> (yes: bool)
    ensures
        yes == is_source_path(path@),
{
    match extension_of(path) {
        Some(ext) => {
            let e = ext.as_str();
            equal(e, "cpp") || equal(e, "cxx") || equal(e, "cc") || equal(e, "c")
        },
        None => false,
    }
}

/// Picks the translation units out of a directory walk, in walk order.
pub fn select_sources(entries: &Vec<WalkEntry>) -> (sources: Vec<String>)
    ensures
        sources.deep_view() == selected_sources(entries.deep_view()),
{
    let ghost all = entries.deep_view();
    let ghost keep = |entry: WalkEntryModel| is_source_entry(entry);
    let ghost pick = |entry: WalkEntryModel| entry.path;
    let mut sources: Vec<String> = Vec::new();
    let mut i: usize = 0;
    proof {
        assert(all.take(0) =~= Seq::<WalkEntryModel>::empty());
        assert(all.take(0).filter(keep) =~= Seq::<WalkEntryModel>::empty()) by {
            reveal(Seq::filter);
        }
        assert(sources.deep_view() =~= all.take(0).filter(keep).map_values(pick));
    }
    while i < entries.len()
        invariant
            i <= entries.len(),
            all == entries.deep_view(),
            keep == |entry: WalkEntryModel| is_source_entry(entry),
            pick == |entry: WalkEntryModel| entry.path,
            sources.deep_view() == all.take(i as int).filter(keep).map_values(pick),
        decreases entries.len() - i,
    {
        let ghost before = sources.deep_view();
        let ghost kept = all.take(i as int).filter(keep);
        proof {
            assert(all.take(i + 1) =~= all.take(i as int).push(all[i as int]));
            all.take(i as int).lemma_filter_push(all[i as int], keep);
            assert(all[i as int] == entries[i as int].deep_view());
        }
        if entries[i].is_file && has_source_extension(entries[i].path.as_str()) {
            sources.push(entries[i].path.clone());
            proof {
                assert(sources.deep_view() =~= before.push(entries[i as int].path@));
                assert(kept.push(all[i as int]).map_values(pick) =~= kept.map_values(pick).push(
                    all[i as int].path,
                ));
            }
        }
        i += 1;
    }
    assert(all.take(i as int) =~= all);
    sources
}

impl CompilationUnit {
    /// The unit of the source file at `source` in the project at `root`.
    pub fn new(source: &str, root: &str) -> (unit: CompilationUnit)
        ensures
            unit.deep_view() == unit_of(source@, root@),
    {
        let relative = match strip_base(source, root) {
            Some(rest) => rest,
            None => source.to_string(),
        };
        CompilationUnit { source_path: source.to_string(), relative_path: relative }
    }

    /// Where the unit's object file goes beneath `obj_root`.
    pub fn object_path(&self, obj_root: &str) -> (path: String)
        ensures
            path@ == object_path_for(obj_root@, self.relative_path@),
    {
        let placed = join_paths(obj_root, self.relative_path.as_str());
        replace_extension(placed.as_str(), "o")
    }

    /// Where the unit's dependency file goes beneath `obj_root`.
    pub fn depfile_path(&self, obj_root: &str) -> (path: String)
        ensures
            path@ == depfile_path_for(obj_root@, self.relative_path@),
    {
        let object = self.object_path(obj_root);
        replace_extension(object.as_str(), "d")
    }
}

/// Turns the collected source files into the units of a build. A build
/// without any source file is refused.
pub fn collect_units(sources: &Vec<String>, root: &str) -> (units: Result<
    Vec<CompilationUnit>,
    BuildError,
>)
    ensures
        modelled(units) == collected_units(sources.deep_view(), root@),
{
    if sources.len() == 0 {
        return Err(BuildError::EmptySourceSet);
    }
    let ghost all = sources.deep_view();
    let mut units: Vec<CompilationUnit> = Vec::new();
    let mut i: usize = 0;
    while i < sources.len()
        invariant
            i <= sources.len(),
            all == sources.deep_view(),
            units.deep_view() == units_of(all.take(i as int), root@),
        decreases sources.len() - i,
    {
        let ghost before = units.deep_view();
        let unit = CompilationUnit::new(sources[i].as_str(), root);
        units.push(unit);
        proof {
            assert(units.deep_view() =~= before.push(unit_of(all[i as int], root@)));
            assert(units_of(all.take(i + 1), root@) =~= before.push(unit_of(all[i as int], root@)));
        }
        i += 1;
    }
    assert(all.take(i as int) =~= all);
    Ok(units)
}

} // verus!
