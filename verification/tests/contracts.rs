use client_uploader_traits::{
    collect_upload_filenames, find_embedded_draft_file_by_name, find_embedded_record_file_by_name,
    find_file_by_name, has_file_named, has_upload_filename, validate_upload_filenames,
    CreatePublicationRequest, DraftResource, PublicationOutcome, RepositoryFile,
    RepositoryRecord, SearchResultsLike, UpdatePublicationRequest, UploadNameValidationError,
    UploadSourceKind, UploadSpecLike,
};

struct NamedUpload(&'static str);

impl UploadSpecLike for NamedUpload {
    fn filename(&self) -> &str {
        self.0
    }

    fn source_kind(&self) -> UploadSourceKind {
        UploadSourceKind::Bytes
    }
}

#[derive(Debug, PartialEq, Eq)]
struct NamedFile {
    id: u32,
    name: &'static str,
}

impl RepositoryFile for NamedFile {
    type Id = u32;

    fn file_id(&self) -> Option<u32> {
        Some(self.id)
    }

    fn file_name(&self) -> &str {
        self.name
    }

    fn size_bytes(&self) -> Option<u64> {
        None
    }
}

struct Listing {
    files: Vec<NamedFile>,
}

impl RepositoryRecord for Listing {
    type Id = u32;
    type File = NamedFile;

    fn resource_id(&self) -> Option<u32> {
        None
    }

    fn title(&self) -> Option<&str> {
        None
    }

    fn files(&self) -> &[NamedFile] {
        &self.files
    }
}

impl DraftResource for Listing {
    type Id = u32;
    type File = NamedFile;

    fn draft_id(&self) -> u32 {
        0
    }

    fn files(&self) -> &[NamedFile] {
        &self.files
    }
}

struct Outcome;

impl PublicationOutcome for Outcome {
    type PublicResource = u32;

    fn public_resource(&self) -> &u32 {
        &7
    }
}

fn uploads(names: &[&'static str]) -> Vec<NamedUpload> {
    names.iter().map(|name| NamedUpload(name)).collect()
}

#[test]
fn no_uploads_collect_to_an_empty_set() {
    let collected = collect_upload_filenames::<NamedUpload>(&[]);
    assert_eq!(collected.map(|set| set.len()), Ok(0));
}

#[test]
fn accepted_names_are_collected_once_each() {
    let list = uploads(&["b.txt", "a.txt", "c.txt"]);
    let collected = collect_upload_filenames(&list).map(|set| set.into_iter().collect::<Vec<_>>());
    assert_eq!(
        collected,
        Ok(vec!["a.txt".to_owned(), "b.txt".to_owned(), "c.txt".to_owned()])
    );
    for name in ["a.txt", "b.txt", "c.txt"] {
        assert!(has_upload_filename(&list, name));
    }
}

#[test]
fn first_offender_decides_the_error() {
    assert_eq!(
        collect_upload_filenames(&uploads(&["a", "", "a"])),
        Err(UploadNameValidationError::EmptyFilename)
    );
    assert_eq!(
        collect_upload_filenames(&uploads(&["a", "b", "a", ""])),
        Err(UploadNameValidationError::DuplicateFilename {
            filename: "a".to_owned()
        })
    );
    assert_eq!(
        collect_upload_filenames(&uploads(&["x", "y", "y", "x"])),
        Err(UploadNameValidationError::DuplicateFilename {
            filename: "y".to_owned()
        })
    );
}

#[test]
fn validate_agrees_with_collect() {
    for names in [
        &["a", "b"][..],
        &["a", "a"][..],
        &["", "a"][..],
        &[][..],
    ] {
        let list = uploads(names);
        assert_eq!(
            validate_upload_filenames(&list),
            collect_upload_filenames(&list).map(|_| ())
        );
    }
}

#[test]
fn names_are_compared_by_their_characters() {
    let list = uploads(&["Report.pdf", "report.pdf"]);
    assert!(validate_upload_filenames(&list).is_ok());
    assert!(has_upload_filename(&list, "report.pdf"));
    assert!(!has_upload_filename(&list, "report.PDF"));
    assert!(!has_upload_filename(&list, ""));
    assert!(!has_upload_filename(&uploads(&[]), "report.pdf"));
}

#[test]
fn validation_errors_describe_themselves() {
    assert_eq!(
        UploadNameValidationError::EmptyFilename.to_string(),
        "upload filename cannot be empty"
    );
    assert_eq!(
        UploadNameValidationError::DuplicateFilename {
            filename: "data.csv".to_owned()
        }
        .to_string(),
        "duplicate upload filename: data.csv"
    );
}

#[test]
fn lookup_returns_the_first_file_with_the_name() {
    let files = vec![
        NamedFile { id: 1, name: "a" },
        NamedFile { id: 2, name: "b" },
        NamedFile { id: 3, name: "b" },
    ];
    assert_eq!(find_file_by_name(&files, "b").and_then(|f| f.file_id()), Some(2));
    assert_eq!(find_file_by_name(&files, "a").and_then(|f| f.file_id()), Some(1));
    assert!(find_file_by_name(&files, "c").is_none());
    assert!(!has_file_named(&files, "c"));
    assert!(has_file_named(&files, "b"));
    assert!(find_file_by_name::<NamedFile>(&[], "a").is_none());
}

#[test]
fn embedded_lookups_search_the_embedded_files() {
    let listing = Listing {
        files: vec![NamedFile { id: 4, name: "x" }, NamedFile { id: 5, name: "x" }],
    };
    assert_eq!(
        find_embedded_record_file_by_name(&listing, "x"),
        Some(&NamedFile { id: 4, name: "x" })
    );
    assert_eq!(
        find_embedded_draft_file_by_name(&listing, "x"),
        Some(&NamedFile { id: 4, name: "x" })
    );
    assert_eq!(find_embedded_draft_file_by_name(&listing, "y"), None);
}

#[test]
fn provided_trait_methods_default_to_none() {
    let upload = NamedUpload("a");
    assert_eq!(upload.content_length(), None);
    assert_eq!(upload.content_type(), None);
    let file = NamedFile { id: 1, name: "a" };
    assert_eq!(file.checksum(), None);
    assert!(file.download_url().is_none());
    assert_eq!(Outcome.created(), None);
    assert_eq!(*Outcome.public_resource(), 7);
}

#[test]
fn vectors_are_search_result_pages() {
    let page = vec![3_u8, 1, 4];
    assert_eq!(page.items(), &[3, 1, 4]);
    assert_eq!(page.page_len(), 3);
    assert!(!page.is_empty());
    assert_eq!(page.total_hits(), None);
    let empty: Vec<u8> = Vec::new();
    assert_eq!(empty.page_len(), 0);
    assert!(empty.is_empty());
}

#[test]
fn request_builders_keep_every_part() {
    let create = CreatePublicationRequest::new("target", 9_u8, vec!['a']).with_upload('b');
    assert_eq!(create.target, "target");
    assert_eq!(create.metadata, 9);
    assert_eq!(create.uploads, vec!['a', 'b']);

    let update = UpdatePublicationRequest::new(3_u32, "meta", true, Vec::<u8>::new())
        .with_upload(1)
        .with_upload(2);
    assert_eq!(update.uploads, vec![1, 2]);
    let mapped = update.map_uploads(|value| u16::from(value) * 100);
    assert_eq!(mapped.resource_id, 3);
    assert_eq!(mapped.metadata, "meta");
    assert!(mapped.policy);
    assert_eq!(mapped.uploads, vec![100, 200]);
}

#[test]
fn map_uploads_visits_uploads_in_order() {
    let request = CreatePublicationRequest::untargeted((), vec!["x", "y", "z"]);
    let mut seen = 0_usize;
    let mapped = request.map_uploads(|name| {
        seen += 1;
        format!("{seen}:{name}")
    });
    assert_eq!(mapped.uploads, vec!["1:x", "2:y", "3:z"]);
    assert_eq!(seen, 3);
}
