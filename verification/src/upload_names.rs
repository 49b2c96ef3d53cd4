//! Upload specifications and the shared checks on their remote filenames.
use vstd::prelude::*;

use std::collections::BTreeSet;

use vstd::string::StringExecFns;

use crate::kinds::UploadSourceKind;

verus! {

/// Shared inspection surface for upload specifications.
pub trait UploadSpecLike {
    /// The remote filename of this upload, as characters: what [`Self::filename`] returns.
    ///
    /// Implementations verified with Verus define it; the default stands for no name.
    closed spec fn spec_filename(&self) -> Seq<char> {
        Seq::empty()
    }

    /// Returns the remote filename that the upload will expose.
    fn filename(&self) -> (name: &str)
        ensures
            name@ == self.spec_filename(),
    ;

    /// Returns the kind of source backing this upload.
    fn source_kind(&self) -> UploadSourceKind;

    /// Returns the exact content length when it is already known cheaply.
    fn content_length(&self) -> (length: Option<u64>)
        default_ensures
            length is None,
    {
        None
    }

    /// Returns the HTTP content type when the upload tracks one.
    fn content_type(&self) -> (content_type: Option<&str>)
        default_ensures
            content_type is None,
    {
        None
    }
}

/// The remote filenames of `uploads`, in order.
pub open spec fn upload_names<Upload: UploadSpecLike>(uploads: Seq<Upload>) -> Seq<Seq<char>> {
    uploads.map_values(|upload: Upload| upload.spec_filename())
}

/// What a rejected upload list is rejected for.
pub enum UploadNameFault {
    /// An upload has an empty remote filename.
    Empty,
    /// An upload repeats the remote filename of an earlier upload.
    Duplicate(Seq<char>),
}

/// Checks `names` from first to last: the first name that is empty, or that repeats an
/// earlier name, decides the fault; when there is none, the result is the set of all names.
pub open spec fn check_names(names: Seq<Seq<char>>) -> Result<Set<Seq<char>>, UploadNameFault>
    decreases names.len(),
{
    if names.len() == 0 {
        Ok(Set::empty())
    } else {
        match check_names(names.drop_last()) {
            Err(fault) => Err(fault),
            Ok(seen) => {
                let last = names.last();
                if last.len() == 0 {
                    Err(UploadNameFault::Empty)
                } else if seen.contains(last) {
                    Err(UploadNameFault::Duplicate(last))
                } else {
                    Ok(seen.insert(last))
                }
            },
        }
    }
}

/// Once a prefix of the names is rejected, the whole list is rejected for the same fault.
pub proof fn lemma_rejected_prefix_decides(names: Seq<Seq<char>>, k: int)
    requires
        0 <= k <= names.len(),
        check_names(names.take(k)) is Err,
    ensures
        check_names(names) == check_names(names.take(k)),
    decreases names.len(),
{
    if k < names.len() {
        assert(names.drop_last().take(k) =~= names.take(k));
        lemma_rejected_prefix_decides(names.drop_last(), k);
    } else {
        assert(names.take(k) =~= names);
    }
}

/// Validation error returned by shared upload-name helpers.
#[derive(Clone, Debug, PartialEq, Eq)]
pub enum UploadNameValidationError {
    /// One upload had an empty remote filename.
    EmptyFilename,
    /// More than one upload targeted the same remote filename.
    DuplicateFilename {
        /// The duplicated filename.
        filename: String,
    },
}

impl View for UploadNameValidationError {
    type V = UploadNameFault;

    open spec fn view(&self) -> UploadNameFault {
        match self {
            UploadNameValidationError::EmptyFilename => UploadNameFault::Empty,
            UploadNameValidationError::DuplicateFilename { filename } => UploadNameFault::Duplicate(
                filename@,
            ),
        }
    }
}

impl UploadNameFault {
    /// The human-readable text that describes this fault.
    pub open spec fn message(self) -> Seq<char> {
        match self {
            UploadNameFault::Empty => "upload filename cannot be empty"@,
            UploadNameFault::Duplicate(filename) => "duplicate upload filename: "@ + filename,
        }
    }
}

impl UploadNameValidationError {
    /// Returns the human-readable description of this error.
    pub fn to_string(&self) -> (text: String)
        ensures
            text@ == self@.message(),
    {
        match self {
            UploadNameValidationError::EmptyFilename => String::from_str(
                "upload filename cannot be empty",
            ),
            UploadNameValidationError::DuplicateFilename { filename } => String::from_str(
                "duplicate upload filename: ",
            ).concat(filename.as_str()),
        }
    }
}

/// Inserts `name` into `names` with `BTreeSet::insert`. Strings are ordered by their
/// characters, so the set gains the characters of `name`, and the call reports whether no
/// string with those characters was in the set before.
#[verifier::external_body]
fn insert_name(names: &mut BTreeSet<String>, name: String) -> (added: bool)
    ensures
        final(names).deep_view() == old(names).deep_view().insert(name@),
        added == !old(names).deep_view().contains(name@),
{
    names.insert(name)
}

/// Whether two names hold the same characters.
pub(crate) fn same_name(left: &str, right: &str) -> (same: bool)
    ensures
        same == (left@ == right@),
{
    left.to_owned() == right.to_owned()
}

/// Collects the set of upload filenames while validating that names are non-empty and unique.
///
/// The returned set can be reused for draft-reconciliation and conflict checks.
///
/// # Errors
///
/// Returns [`UploadNameValidationError::EmptyFilename`] when one upload has an
/// empty remote filename, or [`UploadNameValidationError::DuplicateFilename`]
/// when multiple uploads target the same remote filename; the first upload, in order,
/// that is empty or repeats an earlier name decides which.
pub fn collect_upload_filenames<Upload: UploadSpecLike>(uploads: &[Upload]) -> (result: Result<
    BTreeSet<String>,
    UploadNameValidationError,
>)
    ensures
        match (result, check_names(upload_names(uploads@))) {
            (Ok(filenames), Ok(names)) => filenames.deep_view() == names,
            (Err(error), Err(fault)) => error@ == fault,
            _ => false,
        },
{
    let ghost names = upload_names(uploads@);
    let mut filenames: BTreeSet<String> = BTreeSet::new();
    assert(filenames.deep_view() =~= Set::<Seq<char>>::empty());
    let count = uploads.len();
    for i in 0..count
        invariant
            count == uploads@.len(),
            names == upload_names(uploads@),
            check_names(names.take(i as int)) == Ok::<Set<Seq<char>>, UploadNameFault>(
                filenames.deep_view(),
            ),
    {
        assert(names.take(i + 1).drop_last() =~= names.take(i as int));
        let filename = uploads[i].filename();
        if filename.is_empty() {
            proof {
                lemma_rejected_prefix_decides(names, i + 1);
            }
            return Err(UploadNameValidationError::EmptyFilename);
        }
        if !insert_name(&mut filenames, filename.to_owned()) {
            proof {
                lemma_rejected_prefix_decides(names, i + 1);
            }
            return Err(UploadNameValidationError::DuplicateFilename { filename: filename.to_owned() });
        }
    }
    assert(names.take(count as int) =~= names);
    Ok(filenames)
}

/// Validates that upload filenames are non-empty and unique.
///
/// # Errors
///
/// Returns the same validation errors as [`collect_upload_filenames`].
pub fn validate_upload_filenames<Upload: UploadSpecLike>(uploads: &[Upload]) -> (result: Result<
    (),
    UploadNameValidationError,
>)
    ensures
        result is Ok <==> check_names(upload_names(uploads@)) is Ok,
        result matches Err(error) ==> check_names(upload_names(uploads@)) == Err::<
            Set<Seq<char>>,
            UploadNameFault,
        >(error@),
{
    match collect_upload_filenames(uploads) {
        Ok(_) => Ok(()),
        Err(error) => Err(error),
    }
}

/// Returns whether any upload in the slice targets `filename`.
pub fn has_upload_filename<Upload: UploadSpecLike>(uploads: &[Upload], filename: &str) -> (found:
    bool)
    ensures
        found == upload_names(uploads@).contains(filename@),
{
    let ghost names = upload_names(uploads@);
    let count = uploads.len();
    for i in 0..count
        invariant
            count == uploads@.len(),
            names == upload_names(uploads@),
            forall|j: int| 0 <= j < i ==> names[j] != filename@,
    {
        if same_name(uploads[i].filename(), filename) {
            assert(names[i as int] == filename@);
            return true;
        }
    }
    false
}


/// `index` is the first upload whose name is empty or repeats an earlier name.
pub open spec fn is_first_offender(names: Seq<Seq<char>>, index: int) -> bool {
    &&& 0 <= index < names.len()
    &&& (names[index].len() == 0 || names.take(index).contains(names[index]))
    &&& forall|j: int|
        0 <= j < index ==> names[j].len() > 0 && !#[trigger] names.take(j).contains(names[j])
}

/// A list of names is accepted exactly when every name is non-empty and no name occurs
/// twice; the accepted set is then the set of the names, with one element per name.
pub proof fn lemma_accepted_names(names: Seq<Seq<char>>)
    ensures
        check_names(names) is Ok <==> (forall|i: int| 0 <= i < names.len() ==> #[trigger] names[i].len() > 0)
            && names.no_duplicates(),
        check_names(names) matches Ok(accepted) ==> {
            &&& accepted == names.to_set()
            &&& accepted.finite()
            &&& accepted.len() == names.len()
        },
    decreases names.len(),
{
    if names.len() == 0 {
        assert(names.to_set() =~= Set::<Seq<char>>::empty());
    } else {
        let prefix = names.drop_last();
        let last = names.last();
        lemma_accepted_names(prefix);
        assert(names =~= prefix.push(last));
        assert forall|x: Seq<char>| prefix.contains(x) <==> prefix.to_set().contains(x) by {}
        if check_names(prefix) is Ok {
            assert(names.to_set() =~= prefix.to_set().insert(last)) by {
                assert forall|x: Seq<char>| names.to_set().contains(x) <==> prefix.to_set().insert(
                    last,
                ).contains(x) by {
                    if names.contains(x) {
                        let k = choose|k: int| 0 <= k < names.len() && names[k] == x;
                        if k < names.len() - 1 {
                            assert(prefix[k] == x);
                        }
                    }
                    if prefix.contains(x) {
                        let k = choose|k: int| 0 <= k < prefix.len() && prefix[k] == x;
                        assert(names[k] == x);
                    }
                    if x == last {
                        assert(names[names.len() - 1] == x);
                    }
                }
            }
            if last.len() > 0 && !prefix.contains(last) {
                assert forall|i: int, j: int|
                    0 <= i < names.len() && 0 <= j < names.len() && i != j implies names[i]
                    != names[j] by {
                    if i == names.len() - 1 {
                        assert(prefix[j] == names[j]);
                    } else if j == names.len() - 1 {
                        assert(prefix[i] == names[i]);
                    } else {
                        assert(prefix[i] == names[i] && prefix[j] == names[j]);
                    }
                }
                assert forall|i: int| 0 <= i < names.len() implies #[trigger] names[i].len() > 0 by {
                    if i < names.len() - 1 {
                        assert(prefix[i] == names[i]);
                    }
                }
            } else if last.len() == 0 {
                assert(names[names.len() - 1].len() == 0);
            } else {
                let k = choose|k: int| 0 <= k < prefix.len() && prefix[k] == last;
                assert(names[k] == names[names.len() - 1]);
            }
        } else {
            if (forall|i: int| 0 <= i < names.len() ==> #[trigger] names[i].len() > 0)
                && names.no_duplicates() {
                assert forall|i: int| 0 <= i < prefix.len() implies #[trigger] prefix[i].len() > 0 by {
                    assert(names[i] == prefix[i]);
                }
                assert forall|i: int, j: int|
                    0 <= i < prefix.len() && 0 <= j < prefix.len() && i != j implies prefix[i]
                    != prefix[j] by {
                    assert(names[i] == prefix[i] && names[j] == prefix[j]);
                }
            }
        }
    }
}

/// A rejected list of names is rejected for its first offending upload: an empty name is
/// reported as such, and a repeated name is reported with that name.
pub proof fn lemma_first_offender_decides(names: Seq<Seq<char>>, index: int)
    requires
        is_first_offender(names, index),
    ensures
        check_names(names) == (if names[index].len() == 0 {
            Err::<Set<Seq<char>>, UploadNameFault>(UploadNameFault::Empty)
        } else {
            Err::<Set<Seq<char>>, UploadNameFault>(UploadNameFault::Duplicate(names[index]))
        }),
{
    let prefix = names.take(index);
    assert forall|i: int| 0 <= i < prefix.len() implies #[trigger] prefix[i].len() > 0 by {
        assert(prefix[i] == names[i]);
        assert(!names.take(i).contains(names[i]));
    }
    assert forall|i: int, j: int|
        0 <= i < prefix.len() && 0 <= j < prefix.len() && i != j implies prefix[i] != prefix[j] by {
        let (lo, hi) = if i < j { (i, j) } else { (j, i) };
        assert(names.take(hi)[lo] == names[lo]);
        assert(!names.take(hi).contains(names[hi]));
    }
    lemma_accepted_names(prefix);
    assert(names.take(index + 1).drop_last() =~= prefix);
    assert(names.take(index + 1).last() == names[index]);
    lemma_rejected_prefix_decides(names, index + 1);
}

/// When the upload names are accepted, the collected names are exactly the names that
/// some upload targets, one per upload.
pub proof fn lemma_collected_names_are_upload_names<Upload: UploadSpecLike>(uploads: Seq<Upload>)
    requires
        check_names(upload_names(uploads)) is Ok,
    ensures
        forall|name: Seq<char>|
            check_names(upload_names(uploads))->Ok_0.contains(name) <==> upload_names(
                uploads,
            ).contains(name),
        check_names(upload_names(uploads))->Ok_0.len() == uploads.len(),
{
    lemma_accepted_names(upload_names(uploads));
}

} // verus!
