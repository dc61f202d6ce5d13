use paseo_store::confine::{authorize_managed_path, delete_decision, is_confined, PathResolution};
use paseo_store::errors::StoreError;
use paseo_store::gc::{collect_targets, derive_file_id};
use paseo_store::listing::DirEntry;

const DIR: &str = "/home/u/.local/share/app/paseo-desktop-attachments";

fn entry(name: &str, is_file: bool) -> DirEntry {
    DirEntry {
        name: String::from(name),
        is_file,
    }
}

#[test]
fn confinement_accepts_the_directory_and_its_children() {
    assert!(is_confined(DIR, DIR));
    assert!(is_confined(
        "/home/u/.local/share/app/paseo-desktop-attachments/a.png",
        DIR
    ));
    assert!(is_confined(
        "/home/u/.local/share/app/paseo-desktop-attachments/sub/a.png",
        DIR
    ));
}

#[test]
fn confinement_rejects_everything_else() {
    assert!(!is_confined("/etc/passwd", DIR));
    assert!(!is_confined("/home/u/.local/share/app", DIR));
    // a sibling whose name merely extends the directory's name
    assert!(!is_confined(
        "/home/u/.local/share/app/paseo-desktop-attachments-evil/a.png",
        DIR
    ));
    assert!(!is_confined("", DIR));
}

#[test]
fn read_outside_the_directory_is_refused() {
    let refused = authorize_managed_path(
        PathResolution::Canonical(String::from("/etc/passwd")),
        DIR,
    );
    assert!(matches!(refused, Err(StoreError::OutsideManagedDirectory)));
}

#[test]
fn read_requires_the_file_to_exist() {
    let missing = authorize_managed_path(PathResolution::Missing, DIR);
    assert!(matches!(missing, Err(StoreError::SourceMissing)));
    let unresolved = authorize_managed_path(
        PathResolution::Unresolvable(String::from("loop of symlinks")),
        DIR,
    );
    match unresolved {
        Err(StoreError::Io(detail)) => assert_eq!(detail, "loop of symlinks"),
        other => panic!("expected an Io error, got {:?}", other.is_ok()),
    }
}

#[test]
fn read_inside_the_directory_is_admitted() {
    let path = format!("{DIR}/abc.png");
    let admitted = authorize_managed_path(PathResolution::Canonical(path.clone()), DIR);
    assert_eq!(admitted.ok(), Some(path));
}

#[test]
fn delete_soft_fails_outside_and_on_missing_targets() {
    assert!(delete_decision(
        PathResolution::Canonical(String::from("/etc/passwd")),
        DIR
    )
    .is_none());
    assert!(delete_decision(PathResolution::Missing, DIR).is_none());
    assert!(delete_decision(
        PathResolution::Unresolvable(String::from("gone")),
        DIR
    )
    .is_none());
}

#[test]
fn delete_targets_confined_files() {
    let path = format!("{DIR}/abc.png");
    assert_eq!(
        delete_decision(PathResolution::Canonical(path.clone()), DIR),
        Some(path)
    );
}

#[test]
fn derives_identifiers_from_file_names() {
    assert_eq!(derive_file_id("a.png"), "a");
    assert_eq!(derive_file_id("a.tar.gz"), "a");
    assert_eq!(derive_file_id("plain"), "plain");
    assert_eq!(derive_file_id(".hidden"), "");
}

#[test]
fn collect_deletes_unreferenced_files_and_is_idempotent() {
    let entries = vec![
        entry("a.png", true),
        entry("b", true),
        entry("c.tar.gz", true),
        entry("subdir", false),
        entry(".hidden", true),
    ];
    let referenced = vec![String::from("a")];
    let targets = collect_targets(&entries, &referenced);
    assert_eq!(targets, vec!["b", "c.tar.gz"]);
    assert_eq!(targets.len(), 2);

    // the second pass over the directory as the first pass leaves it
    let after = vec![entry("a.png", true), entry("subdir", false), entry(".hidden", true)];
    let again = collect_targets(&after, &referenced);
    assert!(again.is_empty());
}

#[test]
fn collect_skips_directories_and_nameless_ids() {
    let entries = vec![entry("b.png", false), entry(".profile", true)];
    let referenced: Vec<String> = Vec::new();
    assert!(collect_targets(&entries, &referenced).is_empty());
}
