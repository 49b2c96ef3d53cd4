//! Client configuration and the policy classifications that uploader clients share.
use vstd::prelude::*;

use std::time::Duration;

use crate::kinds::{DraftFilePolicyKind, ExistingFileConflictPolicyKind};

verus! {

/// Minimal configuration surface shared by the uploader clients.
pub trait ClientContext {
    /// Service-specific endpoint configuration type.
    type Endpoint;
    /// Service-specific polling configuration type.
    type PollOptions;
    /// Service-specific error type.
    type Error;

    /// Returns the configured endpoint roots.
    fn endpoint(&self) -> &Self::Endpoint;

    /// Returns the configured polling behavior.
    fn poll_options(&self) -> &Self::PollOptions;

    /// Returns the overall request timeout, when configured.
    fn request_timeout(&self) -> Option<Duration>;

    /// Returns the TCP connect timeout, when configured.
    fn connect_timeout(&self) -> Option<Duration>;
}

/// Shared auth-state inspection surface.
pub trait MaybeAuthenticatedClient: ClientContext {
    /// Returns whether the client currently has credentials available for authenticated calls.
    fn has_auth(&self) -> bool;
}

/// Shared classification trait for Zenodo/Figshare draft reconciliation policies.
pub trait DraftFilePolicy {
    /// Returns the normalized reconciliation mode.
    fn kind(&self) -> DraftFilePolicyKind;
}

/// Shared classification trait for Internet Archive-style per-file conflict policies.
pub trait ExistingFileConflictPolicy {
    /// Returns the normalized conflict mode.
    fn kind(&self) -> ExistingFileConflictPolicyKind;
}

} // verus!
