//! The toolchain of a build: where the compiler is and which flags every
//! compilation gets.

use crate::error::{modelled, BuildError, BuildErrorModel, ConfigProblem, ConfigProblemModel};
use crate::profile::BuildProfile;
use crate::text::{equal, push_all, push_text};
use vstd::prelude::*;

verus! {

/// The compiler's flag for an edition. An edition that is not in the table
/// gets the oldest standard.
pub open spec fn standard_flag_for(edition: Seq<char>) -> Seq<char> {
    if edition == "cpp20"@ {
        "-std=c++20"@
    } else if edition == "cpp23"@ {
        "-std=c++23"@
    } else if edition == "cpp26"@ {
        "-std=c++26"@
    } else {
        "-std=c++17"@
    }
}

/// The warning flags of every compilation.
pub open spec fn spec_warning_flags() -> Seq<Seq<char>> {
    seq!["-Wall"@, "-Wextra"@]
}

/// The compiler's flag for an edition.
pub fn standard_flag(edition: &str) -> (flag: String)
    ensures
        flag@ == standard_flag_for(edition@),
{
    if equal(edition, "cpp20") {
        "-std=c++20".to_string()
    } else if equal(edition, "cpp23") {
        "-std=c++23".to_string()
    } else if equal(edition, "cpp26") {
        "-std=c++26".to_string()
    } else {
        "-std=c++17".to_string()
    }
}

/// The warning flags of every compilation.
pub fn warning_flags() -> (flags: Vec<String>)
    ensures
        flags.deep_view() == spec_warning_flags(),
{
    let mut flags: Vec<String> = Vec::new();
    flags.push("-Wall".to_string());
    flags.push("-Wextra".to_string());
    assert(flags.deep_view() =~= spec_warning_flags());
    flags
}

/// What a build knows of its toolchain. It is resolved once, before
/// anything is compiled, and only read afterwards.
#[derive(Debug)]
pub struct ToolchainConfig {
    pub compiler_executable: String,
    pub standard_flag: String,
    pub warning_flags: Vec<String>,
}

/// What a `ToolchainConfig` holds, as mathematical values.
pub struct ToolchainConfigModel {
    pub compiler_executable: Seq<char>,
    pub standard_flag: Seq<char>,
    pub warning_flags: Seq<Seq<char>>,
}

impl DeepView for ToolchainConfig {
    type V = ToolchainConfigModel;

    open spec fn deep_view(&self) -> ToolchainConfigModel {
        ToolchainConfigModel {
            compiler_executable: self.compiler_executable@,
            standard_flag: self.standard_flag@,
            warning_flags: self.warning_flags.deep_view(),
        }
    }
}

impl ToolchainConfigModel {
    /// The flags that do not depend on the translation unit: the standard,
    /// the flags of the profile, the warnings.
    pub open spec fn base_flags(self, profile: BuildProfile) -> Seq<Seq<char>> {
        seq![self.standard_flag] + profile.spec_compile_flags() + self.warning_flags
    }
}

/// The toolchain that follows from a search for the compiler: the
/// configuration where it was found, the error that names it where not.
pub open spec fn resolved_toolchain(
    compiler: Seq<char>,
    edition: Seq<char>,
    located: Option<Seq<char>>,
) -> Result<ToolchainConfigModel, BuildErrorModel> {
    match located {
        Some(path) => Ok(
            ToolchainConfigModel {
                compiler_executable: path,
                standard_flag: standard_flag_for(edition),
                warning_flags: spec_warning_flags(),
            },
        ),
        None => Err(
            BuildErrorModel::ConfigError(ConfigProblemModel::CompilerNotFound { compiler }),
        ),
    }
}

impl ToolchainConfig {
    /// Builds the configuration from the compiler's name, the edition and
    /// what the search of the path for that name gave.
    pub fn resolve(compiler: &str, edition: &str, located: Option<String>) -> (config: Result<
        ToolchainConfig,
        BuildError,
    >)
        ensures
            modelled(config) == resolved_toolchain(compiler@, edition@, located.deep_view()),
    {
        match located {
            Some(path) => Ok(
                ToolchainConfig {
                    compiler_executable: path,
                    standard_flag: standard_flag(edition),
                    warning_flags: warning_flags(),
                },
            ),
            None => Err(
                BuildError::ConfigError(
                    ConfigProblem::CompilerNotFound { compiler: compiler.to_string() },
                ),
            ),
        }
    }

    /// The flags that do not depend on the translation unit.
    pub fn base_flags(&self, profile: BuildProfile) -> (flags: Vec<String>)
        ensures
            flags.deep_view() == self.deep_view().base_flags(profile),
    {
        let mut flags: Vec<String> = Vec::new();
        push_text(&mut flags, self.standard_flag.as_str());
        assert(flags.deep_view() =~= seq![self.standard_flag@]);
        push_all(&mut flags, &profile.compile_flags());
        push_all(&mut flags, &self.warning_flags);
        flags
    }
}

} // verus!
