use std::io::{Cursor, Write};

use book_import::errors::ImportError;
use book_import::importer::{
    open_import_archive, plan_extraction, prepare_import, resolve_destination, ImportStage,
    PendingImport,
};

use zip::write::{SimpleFileOptions, ZipWriter};

fn make_zip(entries: &[(&str, &[u8])]) -> Vec<u8> {
    let mut w = ZipWriter::new(Cursor::new(Vec::new()));
    let opts = SimpleFileOptions::default();
    for (name, data) in entries {
        w.start_file(*name, opts).unwrap();
        w.write_all(data).unwrap();
    }
    w.finish().unwrap().into_inner()
}

/// Resolves an import whose destination is missing, down to the pending step.
fn pending_for(archive_path: &str, storage_root: &str) -> PendingImport {
    match resolve_destination(archive_path, storage_root, false) {
        ImportStage::NeedsExtraction { pending } => pending,
        ImportStage::Finished { .. } => panic!("a missing destination must be extracted into"),
    }
}

#[test]
fn open_failure_reports_path_and_creates_nothing() {
    let missing = "books/ghost.epub";
    let pending = pending_for(missing, "/data/lib");
    let opened: Result<Vec<u8>, String> = Err(String::from("No such file or directory (os error 2)"));
    match prepare_import(pending, opened) {
        Err(ImportError::OpenFailed { path, cause }) => {
            assert_eq!(path, missing);
            assert_eq!(cause, "No such file or directory (os error 2)");
        }
        _ => panic!("open failure must surface as OpenFailed"),
    }
}

#[test]
fn open_failure_message_text() {
    let e = ImportError::OpenFailed {
        path: String::from("books/ghost.epub"),
        cause: String::from("No such file or directory (os error 2)"),
    };
    assert_eq!(
        e.message(),
        "Failed to open file 'books/ghost.epub': No such file or directory (os error 2)"
    );
}

#[test]
fn import_reaches_a_full_plan() {
    let bytes = make_zip(&[("chapter1.xhtml", b"<html/>"), ("images/cover.png", b"\x89PNG")]);
    let pending = pending_for("books/Moby Dick.epub", "/data/lib");
    assert_eq!(pending.destination, "/data/lib/Moby Dick");
    let prepared = prepare_import(pending, Ok(bytes)).unwrap();
    let opened = open_import_archive(prepared, Ok(())).unwrap();
    let plan = plan_extraction(opened).unwrap();
    assert_eq!(plan.destination, "/data/lib/Moby Dick");
    assert_eq!(plan.items.len(), 2);
    assert_eq!(plan.items[0].path, "/data/lib/Moby Dick/chapter1.xhtml");
    assert_eq!(plan.items[0].data, b"<html/>");
    assert!(!plan.items[0].is_dir);
    assert_eq!(plan.items[1].path, "/data/lib/Moby Dick/images/cover.png");
    assert_eq!(plan.items[1].data, b"\x89PNG");
    assert!(!plan.items[1].is_dir);
}

#[test]
fn reimport_is_idempotent_and_skips_extraction() {
    // First import: the destination is missing, so the pipeline goes all the
    // way to a plan.
    let bytes = make_zip(&[("chapter1.xhtml", b"<html/>")]);
    let pending = pending_for("books/Moby Dick.epub", "/data/lib");
    let first = pending.destination.clone();
    let prepared = prepare_import(pending, Ok(bytes)).unwrap();
    let plan = plan_extraction(open_import_archive(prepared, Ok(())).unwrap()).unwrap();
    assert_eq!(plan.destination, first);

    // Second import: the destination now exists. The resolution needs no
    // open outcome at all, so the import succeeds with the same path even if
    // the archive has meanwhile become unreadable or been deleted.
    match resolve_destination("books/Moby Dick.epub", "/data/lib", true) {
        ImportStage::Finished { destination } => assert_eq!(destination, first),
        ImportStage::NeedsExtraction { .. } => {
            panic!("an existing destination must finish the import")
        }
    }
}

#[test]
fn empty_archive_plans_nothing() {
    let bytes = make_zip(&[]);
    let prepared = prepare_import(pending_for("books/blank.epub", "/data/lib"), Ok(bytes)).unwrap();
    let plan = plan_extraction(open_import_archive(prepared, Ok(())).unwrap()).unwrap();
    assert_eq!(plan.destination, "/data/lib/blank");
    assert!(plan.items.is_empty());
}

#[test]
fn traversal_member_rejected() {
    let bytes = make_zip(&[("../evil.txt", b"pwned"), ("fine.txt", b"ok")]);
    let prepared = prepare_import(pending_for("books/trap.epub", "/data/lib"), Ok(bytes)).unwrap();
    let opened = open_import_archive(prepared, Ok(())).unwrap();
    match plan_extraction(opened) {
        Err(ImportError::ExtractionFailed { cause }) => {
            assert!(cause.contains("../evil.txt"));
        }
        Err(_) => panic!("traversal must surface as ExtractionFailed"),
        Ok(_) => panic!("a member escaping the destination must fail the import"),
    }
}

#[test]
fn nested_traversal_member_rejected() {
    let bytes = make_zip(&[("a/../../evil.txt", b"pwned")]);
    let prepared = prepare_import(pending_for("books/trap.epub", "/data/lib"), Ok(bytes)).unwrap();
    let opened = open_import_archive(prepared, Ok(())).unwrap();
    assert!(matches!(
        plan_extraction(opened),
        Err(ImportError::ExtractionFailed { .. })
    ));
}

#[test]
fn backslash_traversal_member_rejected() {
    let bytes = make_zip(&[("..\\evil.txt", b"pwned")]);
    let prepared = prepare_import(pending_for("books/trap.epub", "/data/lib"), Ok(bytes)).unwrap();
    let opened = open_import_archive(prepared, Ok(())).unwrap();
    assert!(matches!(
        plan_extraction(opened),
        Err(ImportError::ExtractionFailed { .. })
    ));
}

#[test]
fn invalid_archive_reported() {
    let garbage = vec![0u8; 64];
    let prepared = prepare_import(pending_for("books/bad.epub", "/data/lib"), Ok(garbage)).unwrap();
    match open_import_archive(prepared, Ok(())) {
        Err(ImportError::ArchiveOpenFailed { path, cause }) => {
            assert_eq!(path, "books/bad.epub");
            assert!(!cause.is_empty());
        }
        _ => panic!("garbage bytes must surface as ArchiveOpenFailed"),
    }
}

#[test]
fn create_dir_failure_reported() {
    let bytes = make_zip(&[("chapter1.xhtml", b"<html/>")]);
    let prepared =
        prepare_import(pending_for("books/Moby Dick.epub", "/data/lib"), Ok(bytes)).unwrap();
    match open_import_archive(prepared, Err(String::from("Permission denied (os error 13)"))) {
        Err(e @ ImportError::CreateDirFailed { .. }) => {
            assert_eq!(
                e.message(),
                "Failed to create destination '/data/lib/Moby Dick': Permission denied (os error 13)"
            );
        }
        _ => panic!("a failed creation must surface as CreateDirFailed"),
    }
}

#[test]
fn directory_entries_are_planned_as_directories() {
    let mut w = ZipWriter::new(Cursor::new(Vec::new()));
    let opts = SimpleFileOptions::default();
    w.add_directory("images", opts).unwrap();
    w.start_file("images/cover.png", opts).unwrap();
    w.write_all(b"\x89PNG").unwrap();
    let bytes = w.finish().unwrap().into_inner();

    let prepared = prepare_import(pending_for("books/album.epub", "/data/lib"), Ok(bytes)).unwrap();
    let plan = plan_extraction(open_import_archive(prepared, Ok(())).unwrap()).unwrap();
    assert_eq!(plan.items.len(), 2);
    assert_eq!(plan.items[0].path, "/data/lib/album/images/");
    assert!(plan.items[0].is_dir);
    assert_eq!(plan.items[1].path, "/data/lib/album/images/cover.png");
    assert!(!plan.items[1].is_dir);
}
