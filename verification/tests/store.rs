use paseo_store::errors::StoreError;
use paseo_store::ext::normalize_extension;
use paseo_store::ident::validate_attachment_id;
use paseo_store::ingest::{plan_copy_write, plan_inline_write};
use paseo_store::listing::{sweep_targets, DirEntry};
use paseo_store::paths::{attachment_dir_path, build_attachment_path};

fn entry(name: &str, is_file: bool) -> DirEntry {
    DirEntry {
        name: String::from(name),
        is_file,
    }
}

#[test]
fn validate_accepts_word_characters() {
    assert!(validate_attachment_id("abc123").is_ok());
    assert!(validate_attachment_id("A-b_9").is_ok());
    assert!(validate_attachment_id("_").is_ok());
    assert!(validate_attachment_id("0").is_ok());
}

#[test]
fn validate_rejects_empty_identifier() {
    assert!(matches!(
        validate_attachment_id(""),
        Err(StoreError::EmptyIdentifier)
    ));
}

#[test]
fn validate_rejects_foreign_characters() {
    for bad in ["a b", "a.b", "a/b", "a\\b", "..", "café", "x!", "\n"] {
        assert!(
            matches!(
                validate_attachment_id(bad),
                Err(StoreError::InvalidIdentifierCharacter)
            ),
            "expected rejection of {bad:?}"
        );
    }
}

#[test]
fn normalize_preserves_case_and_single_dot() {
    assert_eq!(normalize_extension(Some(String::from(".PNG"))), ".PNG");
}

#[test]
fn normalize_empty_stays_empty() {
    assert_eq!(normalize_extension(Some(String::from(""))), "");
    assert_eq!(normalize_extension(None), "");
    assert_eq!(normalize_extension(Some(String::from(" . . "))), ". ");
}

#[test]
fn normalize_trims_whitespace_then_dots() {
    assert_eq!(normalize_extension(Some(String::from(" .jpg "))), ".jpg");
    assert_eq!(normalize_extension(Some(String::from("jpg"))), ".jpg");
    assert_eq!(normalize_extension(Some(String::from("..png.."))), ".png");
    assert_eq!(normalize_extension(Some(String::from("tar.gz"))), ".tar.gz");
    assert_eq!(normalize_extension(Some(String::from("\t...\n"))), "");
}

#[test]
fn builds_paths_inside_the_managed_directory() {
    let dir = attachment_dir_path("/home/u/.local/share/app");
    assert_eq!(dir, "/home/u/.local/share/app/paseo-desktop-attachments");
    assert_eq!(
        build_attachment_path(&dir, "abc", ".png"),
        "/home/u/.local/share/app/paseo-desktop-attachments/abc.png"
    );
    assert_eq!(
        build_attachment_path(&dir, "abc", ""),
        "/home/u/.local/share/app/paseo-desktop-attachments/abc"
    );
}

#[test]
fn sweep_picks_exactly_the_identifiers_files() {
    let entries = vec![
        entry("x", true),
        entry("x.png", true),
        entry("x.tar.gz", true),
        entry("xy.png", true),
        entry("y.png", true),
        entry("x.d", false),
    ];
    let targets = sweep_targets(&entries, "x");
    assert_eq!(targets, vec!["x", "x.png", "x.tar.gz"]);
}

#[test]
fn inline_write_round_trip() {
    // base64("hello")
    let payload = "aGVsbG8=";
    let entries: Vec<DirEntry> = Vec::new();
    let plan = plan_inline_write("/data/store", "abc123", payload, Some(String::from("txt")), &entries)
        .expect("plan should succeed");
    assert_eq!(plan.path, "/data/store/abc123.txt");
    assert_eq!(plan.file_name, "abc123.txt");
    assert_eq!(plan.bytes, b"hello");
    assert!(plan.remove.is_empty());

    // reading the written file hands back the same transport payload
    let read_back = paseo_store::codec::encode_file_payload(&plan.bytes);
    assert_eq!(read_back, payload);
}

#[test]
fn inline_write_rejects_malformed_payload() {
    let entries: Vec<DirEntry> = Vec::new();
    let result = plan_inline_write("/data/store", "abc123", "not base64!!", None, &entries);
    assert!(matches!(result, Err(StoreError::MalformedPayload)));
}

#[test]
fn inline_write_rejects_bad_identifier_first() {
    let entries: Vec<DirEntry> = Vec::new();
    let result = plan_inline_write("/data/store", "../evil", "aGVsbG8=", None, &entries);
    assert!(matches!(result, Err(StoreError::InvalidIdentifierCharacter)));
    let result = plan_inline_write("/data/store", "", "aGVsbG8=", None, &entries);
    assert!(matches!(result, Err(StoreError::EmptyIdentifier)));
}

#[test]
fn overwrite_replaces_the_previous_file() {
    // first write: x.png
    let empty: Vec<DirEntry> = Vec::new();
    let first = plan_inline_write("/d", "x", "QQ==", Some(String::from("png")), &empty)
        .expect("first write");
    assert_eq!(first.file_name, "x.png");

    // the directory now holds x.png; second write under the same id
    let listing = vec![entry("x.png", true), entry("other.txt", true)];
    let second = plan_inline_write("/d", "x", "Qg==", Some(String::from("jpg")), &listing)
        .expect("second write");
    assert_eq!(second.remove, vec!["x.png"]);
    assert_eq!(second.file_name, "x.jpg");
    assert_eq!(second.path, "/d/x.jpg");
    assert_eq!(second.bytes, b"B");

    // after removing and writing, exactly one file belongs to "x"
    let after = vec![entry("other.txt", true), entry("x.jpg", true)];
    let third_sweep = sweep_targets(&after, "x");
    assert_eq!(third_sweep, vec!["x.jpg"]);
}

#[test]
fn copy_write_uses_source_extension_as_fallback() {
    let entries: Vec<DirEntry> = Vec::new();
    let plan = plan_copy_write("/d", "pic", "/tmp/photos/cat.JPG", true, None, &entries)
        .expect("copy should succeed");
    assert_eq!(plan.file_name, "pic.JPG");
    assert_eq!(plan.path, "/d/pic.JPG");

    let explicit = plan_copy_write(
        "/d",
        "pic",
        "/tmp/photos/cat.JPG",
        true,
        Some(String::from("png")),
        &entries,
    )
    .expect("copy should succeed");
    assert_eq!(explicit.file_name, "pic.png");
}

#[test]
fn copy_write_requires_an_existing_source() {
    let entries: Vec<DirEntry> = Vec::new();
    let result = plan_copy_write("/d", "pic", "/tmp/missing.png", false, None, &entries);
    assert!(matches!(result, Err(StoreError::SourceMissing)));
}

#[test]
fn copy_write_of_extensionless_source() {
    let entries: Vec<DirEntry> = Vec::new();
    let plan = plan_copy_write("/d", "doc", "/tmp/README", true, None, &entries).expect("copy");
    assert_eq!(plan.file_name, "doc");
    let hidden = plan_copy_write("/d", "doc", "/tmp/.gitignore", true, None, &entries).expect("copy");
    assert_eq!(hidden.file_name, "doc");
    let trailing = plan_copy_write("/d", "doc", "/tmp/archive.tar.gz/", true, None, &entries)
        .expect("copy");
    assert_eq!(trailing.file_name, "doc.gz");
}

#[test]
fn error_messages_are_stable() {
    assert_eq!(
        StoreError::EmptyIdentifier.message(),
        "Attachment ID cannot be empty."
    );
    assert_eq!(
        StoreError::InvalidIdentifierCharacter.message(),
        "Attachment ID contains invalid characters."
    );
    assert_eq!(
        StoreError::OutsideManagedDirectory.message(),
        "Attachment path is outside managed attachment directory."
    );
    assert_eq!(
        StoreError::Io(String::from("disk on fire")).message(),
        "disk on fire"
    );
}
