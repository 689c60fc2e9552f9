//! An incremental build engine for C and C++ projects.
//!
//! Given a project tree, a build compiles the translation units that changed,
//! links one binary, and takes include and library paths from a package
//! backend. The library holds the decisions of such a build and leaves the
//! effects to its caller: it does not read a directory, ask for a
//! modification time or start a compiler. Its caller does, and reports
//! back. The one thing the library looks up itself is where the compiler is.
//!
//! * `sources` picks the translation units out of a directory walk and says
//!   where the outputs of each go.
//! * `staleness` decides whether a unit has to be compiled, from
//!   modification times and the unit's dependency file (`depfile`).
//! * `compile` schedules the stale units and reads the results.
//! * `link` puts the one linker invocation together.
//! * `engine` composes these into a build.
//! * `toolchain`, `profile`, `platform` and `package` say which compiler,
//!   which flags and which paths a build uses.
//! * `manifest`, `project`, `templates`, `vcpkg`, `fingerprint` and
//!   `postbuild` cover what surrounds a build.
//! * `path` and `text` are the string layer beneath.
//!
//! Every type with text in it has a model, its `deep_view`, in which strings
//! are sequences of characters. Contracts are stated over models.

use vstd::prelude::*;

pub mod compile;
pub mod depfile;
pub mod engine;
pub mod error;
pub mod fingerprint;
pub mod link;
pub mod manifest;
pub mod package;
pub mod path;
pub mod platform;
pub mod postbuild;
pub mod profile;
pub mod project;
pub mod sources;
pub mod staleness;
pub mod templates;
pub mod text;
pub mod toolchain;
pub mod vcpkg;

verus! {

} // verus!
