//! Common re-exports for crate consumers and implementers.
pub use crate::{
    collect_upload_filenames, find_embedded_draft_file_by_name, find_embedded_record_file_by_name,
    find_file_by_name, has_file_named, has_upload_filename, validate_upload_filenames,
    ClientContext, CreatePublicationRequest, DoiBackedRecord, DraftFilePolicy,
    DraftFilePolicyKind, DraftResource, DraftState, ExistingFileConflictPolicy,
    ExistingFileConflictPolicyKind, MaybeAuthenticatedClient, MutablePublicationOutcome,
    NoCreateTarget, PublicationOutcome, RepositoryFile, RepositoryRecord, SearchResultsLike,
    UpdatePublicationRequest, UploadNameValidationError, UploadSourceKind, UploadSpecLike,
};
