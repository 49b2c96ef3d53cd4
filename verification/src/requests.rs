//! Request values handed to the create and update publication workflows.
use vstd::prelude::*;

use crate::kinds::NoCreateTarget;

verus! {

/// Generic request for "create a brand-new published resource".
#[derive(Clone, Debug, PartialEq, Eq)]
pub struct CreatePublicationRequest<Target, Metadata, Upload> {
    /// Caller-supplied creation target.
    ///
    /// Use [`NoCreateTarget`] for services that create new resources without an
    /// external identifier.
    pub target: Target,
    /// Descriptive metadata to apply before publication.
    pub metadata: Metadata,
    /// Files to upload as part of the publication workflow.
    pub uploads: Vec<Upload>,
}

/// Applies `map` to every element of `uploads`, in order, and collects the results.
fn map_in_order<Upload, MappedUpload, F: FnMut(Upload) -> MappedUpload>(
    uploads: Vec<Upload>,
    mut map: F,
) -> (mapped: Vec<MappedUpload>)
    requires
        forall|i: int| 0 <= i < uploads.len() ==> call_requires(map, (#[trigger] uploads@[i],)),
    ensures
        mapped.len() == uploads.len(),
        forall|i: int|
            0 <= i < uploads.len() ==> call_ensures(map, (uploads@[i],), #[trigger] mapped@[i]),
{
    let ghost source = uploads@;
    let ghost initial_map = map;
    let mut mapped: Vec<MappedUpload> = Vec::new();
    for upload in it: uploads.into_iter()
        invariant
            it.seq() == source,
            map == initial_map,
            mapped.len() == it.index(),
            forall|i: int| 0 <= i < source.len() ==> call_requires(map, (#[trigger] source[i],)),
            forall|i: int|
                0 <= i < mapped.len() ==> call_ensures(map, (source[i],), #[trigger] mapped@[i]),
    {
        mapped.push(map(upload));
    }
    mapped
}

impl<Target, Metadata, Upload> CreatePublicationRequest<Target, Metadata, Upload> {
    /// Creates a new request from explicit parts.
    pub fn new(target: Target, metadata: Metadata, uploads: Vec<Upload>) -> (request: Self)
        ensures
            request.target == target,
            request.metadata == metadata,
            request.uploads@ == uploads@,
    {
        Self { target, metadata, uploads }
    }

    /// Appends one upload to the request.
    pub fn with_upload(self, upload: Upload) -> (request: Self)
        ensures
            request.target == self.target,
            request.metadata == self.metadata,
            request.uploads@ == self.uploads@.push(upload),
    {
        let mut request = self;
        request.uploads.push(upload);
        request
    }

    /// Maps the upload list into another upload type while preserving target and metadata.
    ///
    /// `map` is called once per upload, first to last, and its result takes the upload's place.
    pub fn map_uploads<MappedUpload, F: FnMut(Upload) -> MappedUpload>(
        self,
        map: F,
    ) -> (request: CreatePublicationRequest<Target, Metadata, MappedUpload>)
        requires
            forall|i: int|
                0 <= i < self.uploads.len() ==> call_requires(map, (#[trigger] self.uploads@[i],)),
        ensures
            request.target == self.target,
            request.metadata == self.metadata,
            request.uploads.len() == self.uploads.len(),
            forall|i: int|
                0 <= i < self.uploads.len() ==> call_ensures(
                    map,
                    (self.uploads@[i],),
                    #[trigger] request.uploads@[i],
                ),
    {
        CreatePublicationRequest {
            target: self.target,
            metadata: self.metadata,
            uploads: map_in_order(self.uploads, map),
        }
    }
}

impl<Metadata, Upload> CreatePublicationRequest<NoCreateTarget, Metadata, Upload> {
    /// Creates a new request for services that do not require a caller-supplied creation target.
    pub fn untargeted(metadata: Metadata, uploads: Vec<Upload>) -> (request: Self)
        ensures
            request.target == NoCreateTarget,
            request.metadata == metadata,
            request.uploads@ == uploads@,
    {
        Self::new(NoCreateTarget, metadata, uploads)
    }
}

/// Generic request for "update or upsert an existing published resource".
#[derive(Clone, Debug, PartialEq, Eq)]
pub struct UpdatePublicationRequest<ResourceId, Metadata, Policy, Upload> {
    /// Identifier of the existing resource family or mutable root object.
    pub resource_id: ResourceId,
    /// Descriptive metadata to apply during the workflow.
    pub metadata: Metadata,
    /// Upload reconciliation or conflict policy.
    pub policy: Policy,
    /// Files to upload as part of the workflow.
    pub uploads: Vec<Upload>,
}

impl<ResourceId, Metadata, Policy, Upload> UpdatePublicationRequest<
    ResourceId,
    Metadata,
    Policy,
    Upload,
> {
    /// Creates a new request from explicit parts.
    pub fn new(resource_id: ResourceId, metadata: Metadata, policy: Policy, uploads: Vec<Upload>) -> (request: Self)
        ensures
            request.resource_id == resource_id,
            request.metadata == metadata,
            request.policy == policy,
            request.uploads@ == uploads@,
    {
        Self { resource_id, metadata, policy, uploads }
    }

    /// Appends one upload to the request.
    pub fn with_upload(self, upload: Upload) -> (request: Self)
        ensures
            request.resource_id == self.resource_id,
            request.metadata == self.metadata,
            request.policy == self.policy,
            request.uploads@ == self.uploads@.push(upload),
    {
        let mut request = self;
        request.uploads.push(upload);
        request
    }

    /// Maps the upload list into another upload type while preserving identifiers, metadata, and policy.
    ///
    /// `map` is called once per upload, first to last, and its result takes the upload's place.
    pub fn map_uploads<MappedUpload, F: FnMut(Upload) -> MappedUpload>(
        self,
        map: F,
    ) -> (request: UpdatePublicationRequest<ResourceId, Metadata, Policy, MappedUpload>)
        requires
            forall|i: int|
                0 <= i < self.uploads.len() ==> call_requires(map, (#[trigger] self.uploads@[i],)),
        ensures
            request.resource_id == self.resource_id,
            request.metadata == self.metadata,
            request.policy == self.policy,
            request.uploads.len() == self.uploads.len(),
            forall|i: int|
                0 <= i < self.uploads.len() ==> call_ensures(
                    map,
                    (self.uploads@[i],),
                    #[trigger] request.uploads@[i],
                ),
    {
        UpdatePublicationRequest {
            resource_id: self.resource_id,
            metadata: self.metadata,
            policy: self.policy,
            uploads: map_in_order(self.uploads, map),
        }
    }
}

} // verus!
