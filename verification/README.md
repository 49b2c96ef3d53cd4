# client-uploader-traits

Shared request types, inspection traits and helpers for uploader clients of publication
repositories (Zenodo-, Figshare- and Internet-Archive-like services), verified with Verus.

- `src/kinds.rs`: the plain classification enums and the `NoCreateTarget` marker.
- `src/requests.rs`: `CreatePublicationRequest` and `UpdatePublicationRequest` and their builders.
- `src/upload_names.rs`: `UploadSpecLike`, the upload-filename checks
  (`collect_upload_filenames`, `validate_upload_filenames`, `has_upload_filename`), the
  specification they are proved against (`check_names`) and its laws.
- `src/records.rs`: file, record, draft, outcome and search-result inspection traits, the
  lookups of files by name, and their law.
- `src/client.rs`: client configuration and policy classification traits.
- `src/outside.rs`: the declaration of `url::Url` for Verus.
- `app/lib.rs`: the asynchronous capability traits (network and file operations), their
  bundles, and an error copy with `Display` and `Error`.
