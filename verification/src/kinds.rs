//! Plain classification types shared by every uploader client.
use vstd::prelude::*;

verus! {

/// Marker used when a service creates new resources without a caller-supplied target identifier.
#[derive(Clone, Copy, Debug, Default, PartialEq, Eq, Hash)]
pub struct NoCreateTarget;

/// Shared classification of upload input sources.
#[derive(Clone, Copy, Debug, PartialEq, Eq, Hash)]
pub enum UploadSourceKind {
    /// Upload bytes come from a local file path.
    Path,
    /// Upload bytes come from a reader or stream-like source.
    Reader,
    /// Upload bytes are already materialized in memory.
    Bytes,
}

/// Normalized draft-file reconciliation semantics shared by Zenodo and Figshare.
#[derive(Clone, Copy, Debug, PartialEq, Eq, Hash)]
pub enum DraftFilePolicyKind {
    /// Remove all existing files before publishing the new upload set.
    ReplaceAll,
    /// Replace only the files whose names match one of the new uploads.
    UpsertByFilename,
    /// Keep existing files and add the new uploads alongside them.
    KeepExistingAndAdd,
}

/// Normalized per-file conflict semantics shared by direct-upload services such as Internet Archive.
#[derive(Clone, Copy, Debug, PartialEq, Eq, Hash)]
pub enum ExistingFileConflictPolicyKind {
    /// Fail when a file with the same name already exists.
    Error,
    /// Skip uploads whose names already exist.
    Skip,
    /// Replace the existing file in place.
    Overwrite,
    /// Replace the existing file while preserving history on the remote service.
    OverwriteKeepingHistory,
}

} // verus!
