//! The triplet that names the machine of a build to a package backend.
//!
//! A platform is an operating system and an architecture, by the names the
//! standard library gives them (`linux`, `macos`, `windows`; `x86_64`,
//! `aarch64`).

use crate::text::{concatenate, equal};
use vstd::prelude::*;

verus! {

/// The triplet chosen for a platform.
#[derive(Debug)]
pub struct Triplet {
    /// The triplet's name.
    pub name: String,
    /// The warning to show where the platform was not recognised and the
    /// default was taken.
    pub warning: Option<String>,
}

/// Whether a triplet is known for this pair.
pub open spec fn is_known_platform(os: Seq<char>, arch: Seq<char>) -> bool {
    (os == "linux"@ || os == "macos"@ || os == "windows"@) && (arch == "x86_64"@ || arch
        == "aarch64"@)
}

/// The triplet taken where the platform is not recognised.
pub open spec fn default_triplet() -> Seq<char> {
    "x64-linux"@
}

/// The triplet of a platform: a pure function of the two names, with a
/// default for every pair that is not in the table.
pub open spec fn triplet_name(os: Seq<char>, arch: Seq<char>) -> Seq<char> {
    if os == "linux"@ && arch == "x86_64"@ {
        "x64-linux"@
    } else if os == "linux"@ && arch == "aarch64"@ {
        "arm64-linux"@
    } else if os == "macos"@ && arch == "x86_64"@ {
        "x64-osx"@
    } else if os == "macos"@ && arch == "aarch64"@ {
        "arm64-osx"@
    } else if os == "windows"@ && arch == "x86_64"@ {
        "x64-windows"@
    } else if os == "windows"@ && arch == "aarch64"@ {
        "arm64-windows"@
    } else {
        default_triplet()
    }
}

/// The warning shown for a platform that is not in the table.
pub open spec fn unknown_platform_warning(os: Seq<char>, arch: Seq<char>) -> Seq<char> {
    "Warning: Unknown platform "@ + os + "-"@ + arch + ", defaulting to x64-linux"@
}

/// Chooses the triplet for a platform. A pair that is not in the table gets
/// the default triplet and a warning; no pair is refused.
pub fn detect_triplet(os: &str, arch: &str) -> (triplet: Triplet)
    ensures
        triplet.name@ == triplet_name(os@, arch@),
        triplet.warning.deep_view() == if is_known_platform(os@, arch@) {
            None
        } else {
            Some(unknown_platform_warning(os@, arch@))
        },
{
    let x86 = equal(arch, "x86_64");
    let arm = equal(arch, "aarch64");
    let name = if equal(os, "linux") && x86 {
        Some("x64-linux")
    } else if equal(os, "linux") && arm {
        Some("arm64-linux")
    } else if equal(os, "macos") && x86 {
        Some("x64-osx")
    } else if equal(os, "macos") && arm {
        Some("arm64-osx")
    } else if equal(os, "windows") && x86 {
        Some("x64-windows")
    } else if equal(os, "windows") && arm {
        Some("arm64-windows")
    } else {
        None
    };
    match name {
        Some(known) => Triplet { name: known.to_string(), warning: None },
        None => {
            let mut text = concatenate("Warning: Unknown platform ", os);
            text.append("-");
            text.append(arch);
            text.append(", defaulting to x64-linux");
            Triplet { name: "x64-linux".to_string(), warning: Some(text) }
        },
    }
}

} // verus!
