//! Outside types that the shared traits carry through without looking inside.
use vstd::prelude::*;

verus! {

/// `url::Url`, the parsed download location a remote file may carry.
#[verifier::external_type_specification]
#[verifier::external_body]
pub struct ExternalUrl(url::Url);

} // verus!
