//! Build profiles and the flags they stand for.

use vstd::prelude::*;

verus! {

/// A named build configuration. Each has its own output directory, so the
/// objects of one never meet those of the other.
#[derive(Clone, Copy, Debug, PartialEq, Eq, Structural)]
pub enum BuildProfile {
    Debug,
    Release,
}

impl BuildProfile {
    /// The name of the profile's directory beneath `target`.
    pub open spec fn spec_dir_name(self) -> Seq<char> {
        match self {
            BuildProfile::Debug => "debug"@,
            BuildProfile::Release => "release"@,
        }
    }

    /// The flags the compiler gets: no optimisation and debug symbols for
    /// `Debug`, the highest optimisation for `Release`.
    pub open spec fn spec_compile_flags(self) -> Seq<Seq<char>> {
        match self {
            BuildProfile::Debug => seq!["-O0"@, "-g"@],
            BuildProfile::Release => seq!["-O3"@],
        }
    }

    /// The flags the linker gets besides objects and libraries: a release
    /// build strips symbols, a debug build keeps them. Symbols are stripped
    /// at the link step only, never by a compilation.
    pub open spec fn spec_link_flags(self) -> Seq<Seq<char>> {
        match self {
            BuildProfile::Debug => Seq::empty(),
            BuildProfile::Release => seq!["-s"@],
        }
    }

    /// The profile that a `--release` switch selects.
    pub fn from_release_flag(release: bool) -> (profile: BuildProfile)
        ensures
            profile == if release {
                BuildProfile::Release
            } else {
                BuildProfile::Debug
            },
    {
        if release {
            BuildProfile::Release
        } else {
            BuildProfile::Debug
        }
    }

    /// Whether this is the release profile.
    pub fn is_release(&self) -> (yes: bool)
        ensures
            yes == (*self == BuildProfile::Release),
    {
        match self {
            BuildProfile::Release => true,
            BuildProfile::Debug => false,
        }
    }

    /// The name of the profile's directory beneath `target`.
    pub fn dir_name(&self) -> (name: String)
        ensures
            name@ == self.spec_dir_name(),
    {
        match self {
            BuildProfile::Debug => "debug".to_string(),
            BuildProfile::Release => "release".to_string(),
        }
    }

    /// The optimisation and debug flags of a compilation.
    pub fn compile_flags(&self) -> (flags: Vec<String>)
        ensures
            flags.deep_view() == self.spec_compile_flags(),
    {
        let mut flags: Vec<String> = Vec::new();
        match self {
            BuildProfile::Debug => {
                flags.push("-O0".to_string());
                flags.push("-g".to_string());
                assert(flags.deep_view() =~= seq!["-O0"@, "-g"@]);
            },
            BuildProfile::Release => {
                flags.push("-O3".to_string());
                assert(flags.deep_view() =~= seq!["-O3"@]);
            },
        }
        flags
    }

    /// The flags of the link step that depend on the profile.
    pub fn link_flags(&self) -> (flags: Vec<String>)
        ensures
            flags.deep_view() == self.spec_link_flags(),
    {
        let mut flags: Vec<String> = Vec::new();
        if self.is_release() {
            flags.push("-s".to_string());
            assert(flags.deep_view() =~= seq!["-s"@]);
        } else {
            assert(flags.deep_view() =~= Seq::<Seq<char>>::empty());
        }
        flags
    }
}

} // verus!
