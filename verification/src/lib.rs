//! Shared request types, inspection traits and helpers for uploader clients of
//! publication repositories (Zenodo-, Figshare- and Internet-Archive-like services).
//!
//! It covers client configuration, upload, file and resource inspection, publication
//! outcome and search-result inspection, the create/update publication requests, and the
//! helpers that check upload filenames and look files up by name.
#![allow(unused_imports)]

pub mod client;
pub mod kinds;
pub mod outside;
pub mod prelude;
pub mod records;
pub mod requests;
pub mod upload_names;

pub use client::{ClientContext, DraftFilePolicy, ExistingFileConflictPolicy, MaybeAuthenticatedClient};
pub use kinds::{DraftFilePolicyKind, ExistingFileConflictPolicyKind, NoCreateTarget, UploadSourceKind};
pub use records::{
    find_embedded_draft_file_by_name, find_embedded_record_file_by_name, find_file_by_name,
    has_file_named, DoiBackedRecord, DraftResource, DraftState, MutablePublicationOutcome,
    PublicationOutcome, RepositoryFile, RepositoryRecord, SearchResultsLike,
};
pub use requests::{CreatePublicationRequest, UpdatePublicationRequest};
pub use upload_names::{
    collect_upload_filenames, has_upload_filename, validate_upload_filenames,
    UploadNameValidationError, UploadSpecLike,
};
