//! Fingerprints: what a build could remember of the files it has seen.
//!
//! The staleness rule does not consult fingerprints. It goes by modification
//! times alone; a fingerprint only names the compiler and holds one record
//! for each file, no path twice.

use crate::error::BuildError;
use crate::manifest::Manifest;
use vstd::prelude::*;

verus! {

/// What is remembered of one file.
#[derive(Clone, Copy, Debug, PartialEq, Eq, Structural)]
pub struct FileInfo {
    pub modified: u64,
    pub size: u64,
}

/// The record of one file.
#[derive(Debug)]
pub struct FileRecord {
    pub path: String,
    pub info: FileInfo,
}

/// What is remembered of a build.
#[derive(Debug)]
pub struct Fingerprint {
    pub files: Vec<FileRecord>,
    pub compiler_version: String,
}

/// What a `FileRecord` holds, as mathematical values.
pub struct FileRecordModel {
    pub path: Seq<char>,
    pub info: FileInfo,
}

/// What a `Fingerprint` holds, as mathematical values.
pub struct FingerprintModel {
    pub files: Seq<FileRecordModel>,
    pub compiler_version: Seq<char>,
}

impl DeepView for FileRecord {
    type V = FileRecordModel;

    open spec fn deep_view(&self) -> FileRecordModel {
        FileRecordModel { path: self.path@, info: self.info }
    }
}

impl DeepView for Fingerprint {
    type V = FingerprintModel;

    open spec fn deep_view(&self) -> FingerprintModel {
        FingerprintModel {
            files: self.files.deep_view(),
            compiler_version: self.compiler_version@,
        }
    }
}

impl Fingerprint {
    /// Whether no path has two records.
    pub open spec fn wf(&self) -> bool {
        forall|i: int, j: int|
            0 <= i < j < self.deep_view().files.len() ==> (#[trigger] self.deep_view().files[i]).path
                != (#[trigger] self.deep_view().files[j]).path
    }

    /// A fingerprint without any record.
    pub fn new(compiler_version: String) -> (fingerprint: Fingerprint)
        ensures
            fingerprint.deep_view() == (FingerprintModel {
                files: Seq::empty(),
                compiler_version: compiler_version@,
            }),
            fingerprint.wf(),
    {
        let fingerprint = Fingerprint { files: Vec::new(), compiler_version };
        assert(fingerprint.files.deep_view() =~= Seq::<FileRecordModel>::empty());
        fingerprint
    }
}

/// Fingerprints a project. Nothing is recorded yet, and nothing can fail.
pub fn create_fingerprint(_manifest: &Manifest) -> (done: Result<(), BuildError>)
    ensures
        done is Ok,
{
    Ok(())
}

} // verus!
