//! Inspection surfaces for remote files, records, drafts, workflow outcomes and search
//! results, and the lookups of files by name.
use vstd::prelude::*;

use url::Url;

use crate::upload_names::same_name;

verus! {

/// Shared inspection surface for remote file entries.
pub trait RepositoryFile {
    /// Service-specific file identifier type.
    type Id: Clone;

    /// The remote filename or key of this file, as characters: what [`Self::file_name`] returns.
    ///
    /// Implementations verified with Verus define it; the default stands for no name.
    closed spec fn spec_file_name(&self) -> Seq<char> {
        Seq::empty()
    }

    /// Returns the file identifier when the service exposes one.
    fn file_id(&self) -> Option<Self::Id>;

    /// Returns the remote filename or key.
    fn file_name(&self) -> (name: &str)
        ensures
            name@ == self.spec_file_name(),
    ;

    /// Returns the file size in bytes when known.
    fn size_bytes(&self) -> Option<u64>;

    /// Returns a checksum string when the service reports one.
    fn checksum(&self) -> (checksum: Option<&str>)
        default_ensures
            checksum is None,
    {
        None
    }

    /// Returns the best direct download URL when one is already present on the payload.
    fn download_url(&self) -> (url: Option<&Url>)
        default_ensures
            url is None,
    {
        None
    }
}

/// Shared inspection surface for top-level resource payloads.
///
/// This trait intentionally treats embedded file lists as advisory. Some
/// services, notably Figshare, may return partial embedded file lists on the
/// main resource payload. Use [`crate::ListResourceFiles`] when complete enumeration
/// matters.
pub trait RepositoryRecord {
    /// Service-specific resource identifier type.
    type Id: Clone;
    /// Service-specific file entry type.
    type File: RepositoryFile;

    /// The embedded file list of this payload: what [`Self::files`] returns.
    ///
    /// Implementations verified with Verus define it; the default stands for no files.
    closed spec fn spec_files(&self) -> Seq<Self::File> {
        Seq::empty()
    }

    /// Returns the top-level resource identifier when it can be read directly from the payload.
    fn resource_id(&self) -> Option<Self::Id>;

    /// Returns a display title when one is available.
    fn title(&self) -> Option<&str>;

    /// Returns the embedded file list on the payload.
    fn files(&self) -> (files: &[Self::File])
        ensures
            files@ == self.spec_files(),
    ;
}

/// Shared inspection surface for DOI-backed resources.
pub trait DoiBackedRecord {
    /// Service-specific DOI type.
    type Doi: Clone;

    /// Returns the resource DOI when one is present.
    fn doi(&self) -> Option<Self::Doi>;
}

/// Shared inspection surface for mutable draft-like resources.
pub trait DraftResource {
    /// Service-specific draft identifier type.
    type Id: Clone;
    /// Service-specific draft file entry type.
    type File: RepositoryFile;

    /// The embedded file list of this draft: what [`Self::files`] returns.
    ///
    /// Implementations verified with Verus define it; the default stands for no files.
    closed spec fn spec_files(&self) -> Seq<Self::File> {
        Seq::empty()
    }

    /// Returns the draft identifier.
    fn draft_id(&self) -> Self::Id;

    /// Returns the embedded draft file list.
    fn files(&self) -> (files: &[Self::File])
        ensures
            files@ == self.spec_files(),
    ;
}

/// Shared inspection surface for publication workflow results.
pub trait PublicationOutcome {
    /// Public resource type returned by the workflow.
    type PublicResource;

    /// Returns the final public resource visible after the workflow completes.
    fn public_resource(&self) -> &Self::PublicResource;

    /// Returns whether the workflow definitely created a brand-new resource.
    ///
    /// `None` means the workflow result does not carry this distinction.
    fn created(&self) -> (created: Option<bool>)
        default_ensures
            created is None,
    {
        None
    }
}

/// Shared inspection surface for publication workflows that also return a mutable or private-side resource.
pub trait MutablePublicationOutcome: PublicationOutcome {
    /// Mutable or private-side resource type returned by the workflow.
    type MutableResource;

    /// Returns the mutable or private-side resource when the workflow exposes one.
    fn mutable_resource(&self) -> Option<&Self::MutableResource>;
}

/// Shared publication-state inspection for mutable resources.
pub trait DraftState {
    /// Returns whether the remote object is already published.
    fn is_published(&self) -> bool;

    /// Returns whether metadata edits are currently allowed.
    fn allows_metadata_updates(&self) -> bool;
}

/// Shared inspection surface for search result containers.
pub trait SearchResultsLike {
    /// One result item.
    type Item;

    /// The items materialized on the current result page: what [`Self::items`] returns.
    ///
    /// Implementations verified with Verus define it; the default stands for no items.
    closed spec fn spec_items(&self) -> Seq<Self::Item> {
        Seq::empty()
    }

    /// Returns the items materialized on the current result page.
    fn items(&self) -> (items: &[Self::Item])
        ensures
            items@ == self.spec_items(),
    ;

    /// Returns the total hit count when the backend reports one separately from the current page.
    fn total_hits(&self) -> (hits: Option<u64>)
        default_ensures
            hits is None,
    {
        None
    }

    /// Returns the number of items on the current page.
    fn page_len(&self) -> (len: usize)
        ensures
            len == self.spec_items().len(),
    {
        self.items().len()
    }

    /// Returns whether the current result page has no items.
    fn is_empty(&self) -> (empty: bool)
        ensures
            empty == (self.spec_items().len() == 0),
    {
        self.items().len() == 0
    }
}

impl<T> SearchResultsLike for Vec<T> {
    type Item = T;

    open spec fn spec_items(&self) -> Seq<T> {
        self@
    }

    fn items(&self) -> (items: &[T]) {
        self.as_slice()
    }
}

/// The remote names of `files`, in order.
pub open spec fn file_names<File: RepositoryFile>(files: Seq<File>) -> Seq<Seq<char>> {
    files.map_values(|file: File| file.spec_file_name())
}

/// `index` is the first position of `names` that holds `name`.
pub open spec fn is_first_named(names: Seq<Seq<char>>, name: Seq<char>, index: int) -> bool {
    &&& 0 <= index < names.len()
    &&& names[index] == name
    &&& forall|j: int| 0 <= j < index ==> names[j] != name
}

/// Returns the first file whose name matches `name`.
pub fn find_file_by_name<'a, File: RepositoryFile>(files: &'a [File], name: &str) -> (found: Option<
    &'a File,
>)
    ensures
        match found {
            Some(file) => exists|index: int|
                is_first_named(file_names(files@), name@, index) && *file == files@[index],
            None => !file_names(files@).contains(name@),
        },
{
    let ghost names = file_names(files@);
    let count = files.len();
    for i in 0..count
        invariant
            count == files@.len(),
            names == file_names(files@),
            forall|j: int| 0 <= j < i ==> names[j] != name@,
    {
        if same_name(files[i].file_name(), name) {
            assert(is_first_named(names, name@, i as int));
            return Some(&files[i]);
        }
    }
    None
}

/// Returns whether any file in the slice matches `name`.
pub fn has_file_named<File: RepositoryFile>(files: &[File], name: &str) -> (found: bool)
    ensures
        found == file_names(files@).contains(name@),
{
    let file = find_file_by_name(files, name);
    proof {
        if let Some(f) = file {
            let index = choose|index: int|
                is_first_named(file_names(files@), name@, index) && *f == files@[index];
            assert(file_names(files@)[index] == name@);
        }
    }
    file.is_some()
}

/// Returns the first embedded file on a record payload whose name matches `name`.
pub fn find_embedded_record_file_by_name<'a, Record: RepositoryRecord>(
    record: &'a Record,
    name: &str,
) -> (found: Option<&'a Record::File>)
    ensures
        match found {
            Some(file) => exists|index: int|
                is_first_named(file_names(record.spec_files()), name@, index) && *file
                    == record.spec_files()[index],
            None => !file_names(record.spec_files()).contains(name@),
        },
{
    find_file_by_name(record.files(), name)
}

/// Returns the first embedded file on a draft payload whose name matches `name`.
pub fn find_embedded_draft_file_by_name<'a, Draft: DraftResource>(
    draft: &'a Draft,
    name: &str,
) -> (found: Option<&'a Draft::File>)
    ensures
        match found {
            Some(file) => exists|index: int|
                is_first_named(file_names(draft.spec_files()), name@, index) && *file
                    == draft.spec_files()[index],
            None => !file_names(draft.spec_files()).contains(name@),
        },
{
    find_file_by_name(draft.files(), name)
}


/// A name that occurs in a list has a first occurrence, and only such a name has one.
proof fn lemma_first_occurrence(names: Seq<Seq<char>>, name: Seq<char>)
    ensures
        names.contains(name) <==> exists|index: int| is_first_named(names, name, index),
    decreases names.len(),
{
    if names.len() > 0 && names[0] != name {
        let rest = names.drop_first();
        lemma_first_occurrence(rest, name);
        if names.contains(name) {
            let k = choose|k: int| 0 <= k < names.len() && names[k] == name;
            assert(rest[k - 1] == name);
            let index = choose|index: int| is_first_named(rest, name, index);
            assert(is_first_named(names, name, index + 1)) by {
                assert forall|j: int| 0 <= j < index + 1 implies names[j] != name by {
                    if j > 0 {
                        assert(names[j] == rest[j - 1]);
                    }
                }
            }
        }
    } else if names.len() > 0 {
        assert(is_first_named(names, name, 0));
    }
}

/// A file carries `name` exactly when there is a first file that carries it; so
/// `find_file_by_name` returns a file exactly when `has_file_named` returns `true`.
pub proof fn lemma_find_succeeds_iff_named<File: RepositoryFile>(files: Seq<File>, name: Seq<char>)
    ensures
        file_names(files).contains(name) <==> exists|index: int|
            is_first_named(file_names(files), name, index),
{
    lemma_first_occurrence(file_names(files), name);
}

} // verus!
