//! The ways a build can fail.

use crate::text::concatenate;
use vstd::prelude::*;

verus! {

/// A build that cannot start as configured.
#[derive(Debug)]
pub enum ConfigProblem {
    /// No executable of this name is on the search path.
    CompilerNotFound { compiler: String },
    /// The package backend needs a root directory and none is configured.
    PackageRootUnset,
}

/// Why a build stopped.
#[derive(Debug)]
pub enum BuildError {
    /// The toolchain or the package backend is misconfigured.
    ConfigError(ConfigProblem),
    /// The project has no source directory.
    MissingSourceDirectory { path: String },
    /// The source directory holds no translation unit.
    EmptySourceSet,
    /// A directory, a file or its metadata could not be reached.
    IoError { detail: String },
    /// The compiler rejected a translation unit.
    CompileError { source_path: String, stderr: String },
    /// The linker rejected the object files.
    LinkError { stderr: String },
}

/// What a `ConfigProblem` holds, as mathematical values.
pub enum ConfigProblemModel {
    CompilerNotFound { compiler: Seq<char> },
    PackageRootUnset,
}

/// What a `BuildError` holds, as mathematical values.
pub enum BuildErrorModel {
    ConfigError(ConfigProblemModel),
    MissingSourceDirectory { path: Seq<char> },
    EmptySourceSet,
    IoError { detail: Seq<char> },
    CompileError { source_path: Seq<char>, stderr: Seq<char> },
    LinkError { stderr: Seq<char> },
}

impl DeepView for ConfigProblem {
    type V = ConfigProblemModel;

    open spec fn deep_view(&self) -> ConfigProblemModel {
        match self {
            ConfigProblem::CompilerNotFound { compiler } => ConfigProblemModel::CompilerNotFound {
                compiler: compiler@,
            },
            ConfigProblem::PackageRootUnset => ConfigProblemModel::PackageRootUnset,
        }
    }
}

impl DeepView for BuildError {
    type V = BuildErrorModel;

    open spec fn deep_view(&self) -> BuildErrorModel {
        match self {
            BuildError::ConfigError(problem) => BuildErrorModel::ConfigError(problem.deep_view()),
            BuildError::MissingSourceDirectory { path } => BuildErrorModel::MissingSourceDirectory {
                path: path@,
            },
            BuildError::EmptySourceSet => BuildErrorModel::EmptySourceSet,
            BuildError::IoError { detail } => BuildErrorModel::IoError { detail: detail@ },
            BuildError::CompileError { source_path, stderr } => BuildErrorModel::CompileError {
                source_path: source_path@,
                stderr: stderr@,
            },
            BuildError::LinkError { stderr } => BuildErrorModel::LinkError { stderr: stderr@ },
        }
    }
}

/// The result of a fallible step, as mathematical values.
pub open spec fn modelled<T: DeepView>(result: Result<T, BuildError>) -> Result<
    T::V,
    BuildErrorModel,
> {
    match result {
        Ok(value) => Ok(value.deep_view()),
        Err(error) => Err(error.deep_view()),
    }
}

impl ConfigProblemModel {
    /// The text shown for this problem.
    pub open spec fn message(self) -> Seq<char> {
        match self {
            ConfigProblemModel::CompilerNotFound { compiler } => "Compiler '"@ + compiler
                + "' not found in PATH"@,
            ConfigProblemModel::PackageRootUnset =>
                "vcpkg_root must be specified in features when using vcpkg"@,
        }
    }
}

impl BuildErrorModel {
    /// The text shown for this error. What a tool wrote to its error stream
    /// is part of it, unchanged.
    pub open spec fn message(self) -> Seq<char> {
        match self {
            BuildErrorModel::ConfigError(problem) => problem.message(),
            BuildErrorModel::MissingSourceDirectory { path } => "Source directory '"@ + path
                + "' does not exist"@,
            BuildErrorModel::EmptySourceSet => "No source files found in src/"@,
            BuildErrorModel::IoError { detail } => detail,
            BuildErrorModel::CompileError { source_path, stderr } => "Error compiling "@
                + source_path + ":\n"@ + stderr,
            BuildErrorModel::LinkError { stderr } => "Linker Error:\n"@ + stderr,
        }
    }
}

impl ConfigProblem {
    /// The text shown for this problem.
    pub fn message(&self) -> (text: String)
        ensures
            text@ == self.deep_view().message(),
    {
        match self {
            ConfigProblem::CompilerNotFound { compiler } => {
                let mut text = concatenate("Compiler '", compiler.as_str());
                text.append("' not found in PATH");
                text
            },
            ConfigProblem::PackageRootUnset => {
                "vcpkg_root must be specified in features when using vcpkg".to_string()
            },
        }
    }
}

impl BuildError {
    /// The text shown for this error.
    pub fn message(&self) -> (text: String)
        ensures
            text@ == self.deep_view().message(),
    {
        match self {
            BuildError::ConfigError(problem) => problem.message(),
            BuildError::MissingSourceDirectory { path } => {
                let mut text = concatenate("Source directory '", path.as_str());
                text.append("' does not exist");
                text
            },
            BuildError::EmptySourceSet => "No source files found in src/".to_string(),
            BuildError::IoError { detail } => detail.clone(),
            BuildError::CompileError { source_path, stderr } => {
                let mut text = concatenate("Error compiling ", source_path.as_str());
                text.append(":\n");
                text.append(stderr.as_str());
                text
            },
            BuildError::LinkError { stderr } => concatenate("Linker Error:\n", stderr.as_str()),
        }
    }

    /// Whether the failure was found before any tool was run or any
    /// directory made.
    pub fn is_config_error(&self) -> (yes: bool)
        ensures
            yes == (self.deep_view() is ConfigError),
    {
        match self {
            BuildError::ConfigError(_) => true,
            _ => false,
        }
    }
}

} // verus!
