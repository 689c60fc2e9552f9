//! The link step: one linker invocation over all object files.
//!
//! Linking is unconditional. Every build that compiled without error links,
//! whether or not any unit was compiled.

use crate::compile::{ToolOutput, ToolOutputModel};
use crate::error::{modelled, BuildError, BuildErrorModel};
use crate::profile::BuildProfile;
use crate::text::{copy_strings, prefixed, push_all, push_text, with_prefix};
use vstd::prelude::*;

verus! {

/// What the linker is given.
#[derive(Debug)]
pub struct LinkSpec {
    pub object_files: Vec<String>,
    pub library_search_paths: Vec<String>,
    pub link_library_names: Vec<String>,
    pub output_path: String,
}

/// What a `LinkSpec` holds, as mathematical values.
pub struct LinkSpecModel {
    pub object_files: Seq<Seq<char>>,
    pub library_search_paths: Seq<Seq<char>>,
    pub link_library_names: Seq<Seq<char>>,
    pub output_path: Seq<char>,
}

impl DeepView for LinkSpec {
    type V = LinkSpecModel;

    open spec fn deep_view(&self) -> LinkSpecModel {
        LinkSpecModel {
            object_files: self.object_files.deep_view(),
            library_search_paths: self.library_search_paths.deep_view(),
            link_library_names: self.link_library_names.deep_view(),
            output_path: self.output_path@,
        }
    }
}

impl LinkSpecModel {
    /// The arguments of the linker: the object files, `-L<dir>` for each
    /// search path, `-l<name>` for each library, `-o <output>`, and the flags
    /// of the profile.
    pub open spec fn arguments(self, profile: BuildProfile) -> Seq<Seq<char>> {
        self.object_files + with_prefix("-L"@, self.library_search_paths) + with_prefix(
            "-l"@,
            self.link_library_names,
        ) + seq!["-o"@, self.output_path] + profile.spec_link_flags()
    }
}

/// Symbol stripping goes by the profile alone: the arguments of a release
/// link are those of a debug link followed by `-s`, on every platform.
pub proof fn lemma_release_link_strips_symbols(spec: LinkSpecModel)
    ensures
        spec.arguments(BuildProfile::Release) == spec.arguments(BuildProfile::Debug).push("-s"@),
        spec.arguments(BuildProfile::Debug).last() == spec.output_path,
{
    let plain = spec.arguments(BuildProfile::Debug);
    assert(spec.arguments(BuildProfile::Release) =~= plain.push("-s"@));
}

/// What the end of the linker means for the build: the path of the binary
/// where it succeeded, its diagnostics where it did not.
pub open spec fn link_result(output_path: Seq<char>, outcome: ToolOutputModel) -> Result<
    Seq<char>,
    BuildErrorModel,
> {
    if outcome.success {
        Ok(output_path)
    } else {
        Err(BuildErrorModel::LinkError { stderr: outcome.stderr })
    }
}

impl LinkSpec {
    /// Puts together what the linker is given.
    pub fn new(
        object_files: &Vec<String>,
        library_search_paths: &Vec<String>,
        link_library_names: &Vec<String>,
        output_path: &str,
    ) -> (spec: LinkSpec)
        ensures
            spec.deep_view() == (LinkSpecModel {
                object_files: object_files.deep_view(),
                library_search_paths: library_search_paths.deep_view(),
                link_library_names: link_library_names.deep_view(),
                output_path: output_path@,
            }),
    {
        LinkSpec {
            object_files: copy_strings(object_files),
            library_search_paths: copy_strings(library_search_paths),
            link_library_names: copy_strings(link_library_names),
            output_path: output_path.to_string(),
        }
    }

    /// The arguments of the linker.
    pub fn arguments(&self, profile: BuildProfile) -> (arguments: Vec<String>)
        ensures
            arguments.deep_view() == self.deep_view().arguments(profile),
    {
        let mut arguments = copy_strings(&self.object_files);
        push_all(&mut arguments, &prefixed("-L", &self.library_search_paths));
        push_all(&mut arguments, &prefixed("-l", &self.link_library_names));
        let ghost head = arguments.deep_view();
        push_text(&mut arguments, "-o");
        push_text(&mut arguments, self.output_path.as_str());
        assert(arguments.deep_view() =~= head + seq!["-o"@, self.output_path@]);
        push_all(&mut arguments, &profile.link_flags());
        arguments
    }

    /// Decides what the end of the linker means for the build.
    pub fn conclude(&self, outcome: &ToolOutput) -> (result: Result<String, BuildError>)
        ensures
            modelled(result) == link_result(self.output_path@, outcome.deep_view()),
    {
        if outcome.success {
            Ok(self.output_path.clone())
        } else {
            Err(BuildError::LinkError { stderr: outcome.stderr.clone() })
        }
    }
}

} // verus!
