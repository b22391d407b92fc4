//! Assembling fetched files into one deterministic zip archive in memory.
//!
//! Entries are written in the order the fetcher yielded the files — no
//! re-sorting — each named by its original remote filename, deflate-compressed
//! and carrying fixed permission bits. Entry names must be unique: a
//! collision is the defined error `DuplicateEntryName`, never a silent
//! overwrite. The writer runs over an in-memory buffer, so the sealed archive
//! comes back as plain bytes; putting them on disk is the caller's I/O.

use vstd::prelude::*;
use crate::errors::PackageError;

verus! {

/// Permission bits of every archive entry: owner rwx, group rx, other rx.
pub const ARCHIVE_ENTRY_MODE: u32 = 0o755;

/// One result file retrieved from the remote job: its original remote
/// filename (the archive entry name) and its full contents.
pub struct FetchedFile {
    pub name: String,
    pub contents: Vec<u8>,
}

/// A zip writer over an in-memory buffer. The writer type's `Write + Seek`
/// bounds cannot be declared to the verifier, so the whole struct is opaque
/// and everything known of it is said by `zip_entries` and the wrappers below.
#[verifier::external_body]
pub struct ArchiveWriter {
    inner: zip::ZipWriter<std::io::Cursor<Vec<u8>>>,
}

/// The entries a zip writer holds so far: for each, its name, contents and
/// unix permission bits, in the order they were started.
pub uninterp spec fn zip_entries(w: ArchiveWriter) -> Seq<(Seq<char>, Seq<u8>, u32)>;

/// The bytes of the sealed archive holding exactly the given entries. The
/// serialization is a function of the entries alone: every entry is written
/// deflate-compressed at the default level, with the format's fixed default
/// timestamp and an explicit unix system id, so no clock, machine or process
/// state reaches the output.
pub uninterp spec fn zip_archive_bytes(entries: Seq<(Seq<char>, Seq<u8>, u32)>) -> Seq<u8>;

/// Relies on zip::ZipWriter::new over an empty in-memory cursor: the new
/// writer holds no entries.
#[verifier::external_body]
fn zip_writer_new() -> (w: ArchiveWriter)
    ensures
        zip_entries(w) == Seq::<(Seq<char>, Seq<u8>, u32)>::empty(),
{
    ArchiveWriter { inner: zip::ZipWriter::new(std::io::Cursor::new(Vec::new())) }
}

/// Relies on zip::ZipWriter::start_file followed by std::io::Write::write_all
/// on the writer: on success the writer holds one further entry, after all
/// earlier ones, with the given name, contents and permission bits,
/// deflate-compressed. On failure nothing is said of the writer; callers
/// discard it.
#[verifier::external_body]
fn zip_add_entry(w: &mut ArchiveWriter, name: &str, contents: &[u8], mode: u32) -> (r: Result<
    (),
    String,
>)
    ensures
        r is Ok ==> zip_entries(*final(w)) == zip_entries(*old(w)).push(
            (name@, contents@, mode),
        ),
{
    let options = zip::write::SimpleFileOptions::default()
        .compression_method(zip::CompressionMethod::Deflated)
        .unix_permissions(mode)
        .system(zip::System::Unix);
    if let Err(e) = w.inner.start_file(name, options) {
        return Err(e.to_string());
    }
    if let Err(e) = std::io::Write::write_all(&mut w.inner, contents) {
        return Err(e.to_string());
    }
    Ok(())
}

/// Relies on zip::ZipWriter::finish: on success the archive is sealed —
/// independently valid for any standard reader — and its bytes depend on the
/// entries alone, since the timestamp field is the format's fixed default
/// (the crate's clock feature is off) and the system id was set per entry.
#[verifier::external_body]
fn zip_finish(w: ArchiveWriter) -> (r: Result<Vec<u8>, String>)
    ensures
        r is Ok ==> r->Ok_0@ == zip_archive_bytes(zip_entries(w)),
{
    match w.inner.finish() {
        Ok(cursor) => Ok(cursor.into_inner()),
        Err(e) => Err(e.to_string()),
    }
}

/// The archive entries a sequence of fetched files stands for: one entry per
/// file, in fetch order, under the fixed permission bits.
pub open spec fn entry_views(files: Seq<FetchedFile>) -> Seq<(Seq<char>, Seq<u8>, u32)> {
    files.map(|i: int, f: FetchedFile| (f.name@, f.contents@, ARCHIVE_ENTRY_MODE))
}

/// True when two fetched files share a base filename, which would make the
/// archive's entry names collide.
pub open spec fn has_duplicate_names(files: Seq<FetchedFile>) -> bool {
    exists|i: int, j: int|
        0 <= i < j < files.len() && files[i].name@ == files[j].name@
}

/// The index of some file whose name a later file repeats, if any.
fn find_duplicate_name(files: &Vec<FetchedFile>) -> (r: Option<usize>)
    ensures
        r is Some ==> r->Some_0 < files.len() && has_duplicate_names(files@),
        r is None ==> !has_duplicate_names(files@),
{
    let mut j: usize = 0;
    while j < files.len()
        invariant
            j <= files@.len(),
            forall|a: int, b: int|
                0 <= a < b < j ==> files@[a].name@ != files@[b].name@,
        decreases files@.len() - j,
    {
        let mut i: usize = 0;
        while i < j
            invariant
                i <= j < files@.len(),
                forall|a: int| 0 <= a < i ==> files@[a].name@ != files@[j as int].name@,
            decreases j - i,
        {
            if files[i].name == files[j].name {
                return Some(i);
            }
            i += 1;
        }
        j += 1;
    }
    None
}

/// Assembles the fetched files into one sealed archive, in fetch order, one
/// entry per file named by its original filename. Duplicate names are the
/// defined error `DuplicateEntryName`; they are detected before anything is
/// written. A failure of the writer itself surfaces as `OutputIOFailed`.
pub fn build_archive(files: &Vec<FetchedFile>) -> (r: Result<Vec<u8>, PackageError>)
    ensures
        r is Ok ==> !has_duplicate_names(files@) && r->Ok_0@ == zip_archive_bytes(
            entry_views(files@),
        ),
        has_duplicate_names(files@) ==> r is Err && r->Err_0 is DuplicateEntryName,
        r is Err ==> r->Err_0 is DuplicateEntryName || r->Err_0 is OutputIOFailed,
        r is Err && r->Err_0 is DuplicateEntryName ==> has_duplicate_names(files@),
{
    if let Some(i) = find_duplicate_name(files) {
        return Err(PackageError::DuplicateEntryName(files[i].name.clone()));
    }
    let mut w = zip_writer_new();
    proof {
        assert(zip_entries(w) =~= entry_views(files@.take(0)));
    }
    let mut k: usize = 0;
    while k < files.len()
        invariant
            k <= files@.len(),
            !has_duplicate_names(files@),
            zip_entries(w) == entry_views(files@.take(k as int)),
        decreases files@.len() - k,
    {
        let file = &files[k];
        match zip_add_entry(&mut w, file.name.as_str(), file.contents.as_slice(),
            ARCHIVE_ENTRY_MODE) {
            Ok(_) => {
                proof {
                    assert(entry_views(files@.take(k + 1)) =~= entry_views(
                        files@.take(k as int),
                    ).push((files@[k as int].name@, files@[k as int].contents@,
                    ARCHIVE_ENTRY_MODE)));
                }
            },
            Err(m) => {
                return Err(PackageError::OutputIOFailed(m));
            },
        }
        k += 1;
    }
    proof {
        assert(files@.take(files@.len() as int) =~= files@);
    }
    match zip_finish(w) {
        Ok(bytes) => Ok(bytes),
        Err(m) => Err(PackageError::OutputIOFailed(m)),
    }
}

} // verus!
