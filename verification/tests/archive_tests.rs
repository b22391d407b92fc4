use std::io::Cursor;
use std::io::Read;

use nsg_results::archive::build_archive;
use nsg_results::archive::FetchedFile;
use nsg_results::errors::PackageError;

fn file(name: &str, contents: &[u8]) -> FetchedFile {
    FetchedFile { name: name.to_string(), contents: contents.to_vec() }
}

fn read_back(bytes: &[u8]) -> Vec<(String, Vec<u8>, Option<u32>)> {
    let mut archive = zip::ZipArchive::new(Cursor::new(bytes.to_vec())).unwrap();
    let mut entries = Vec::new();
    for i in 0..archive.len() {
        let mut entry = archive.by_index(i).unwrap();
        let mut contents = Vec::new();
        entry.read_to_end(&mut contents).unwrap();
        entries.push((entry.name().to_string(), contents, entry.unix_mode()));
    }
    entries
}

#[test]
fn archive_holds_each_file_once_in_fetch_order() {
    let files = vec![
        file("c.txt", b"third"),
        file("a.txt", b"first"),
        file("b.txt", b"second"),
    ];
    let bytes = build_archive(&files).unwrap();
    let entries = read_back(&bytes);
    assert_eq!(entries.len(), 3);
    assert_eq!(entries[0].0, "c.txt");
    assert_eq!(entries[0].1, b"third");
    assert_eq!(entries[1].0, "a.txt");
    assert_eq!(entries[1].1, b"first");
    assert_eq!(entries[2].0, "b.txt");
    assert_eq!(entries[2].1, b"second");
}

#[test]
fn archive_entries_carry_fixed_permissions() {
    let bytes = build_archive(&vec![file("a.txt", b"abc")]).unwrap();
    let entries = read_back(&bytes);
    let mode = entries[0].2.expect("unix mode recorded");
    assert_eq!(mode & 0o777, 0o755);
}

#[test]
fn duplicate_names_are_a_defined_error() {
    let files = vec![file("same.txt", b"one"), file("same.txt", b"two")];
    let err = build_archive(&files).unwrap_err();
    assert!(matches!(err, PackageError::DuplicateEntryName(_)));
    assert!(err.message().starts_with("Duplicate entry name: "));
}

#[test]
fn duplicate_detection_sees_nonadjacent_files() {
    let files = vec![file("a.txt", b"1"), file("b.txt", b"2"), file("a.txt", b"3")];
    assert!(matches!(
        build_archive(&files).unwrap_err(),
        PackageError::DuplicateEntryName(_)
    ));
}

#[test]
fn same_files_give_byte_identical_archives() {
    let files = vec![file("a.txt", b"abc"), file("b.txt", b"xyz")];
    let once = build_archive(&files).unwrap();
    let again = build_archive(&files).unwrap();
    assert_eq!(once, again);
}

#[test]
fn empty_file_list_gives_empty_archive() {
    let bytes = build_archive(&Vec::new()).unwrap();
    assert_eq!(read_back(&bytes).len(), 0);
}

#[test]
fn empty_contents_are_kept() {
    let bytes = build_archive(&vec![file("empty.dat", b"")]).unwrap();
    let entries = read_back(&bytes);
    assert_eq!(entries.len(), 1);
    assert_eq!(entries[0].1, b"");
}
