//! Reading an archive container in memory, through the `zip` crate.
//!
//! The archive is opened over a plain byte buffer, so these wrappers only
//! compute: what an archive's members are is a function of its bytes alone.
//! `entries_of` names the member sequence a reader yields; the wrappers'
//! contracts speak of it, and the verified planning logic works from them.

use vstd::prelude::*;

verus! {

/// `zip::ZipArchive`, declared so that verified code can hold an in-memory
/// archive reader and pass it between the staging steps.
#[verifier::external_type_specification]
#[verifier::external_body]
#[verifier::reject_recursive_types(R)]
pub struct ExZipArchive<R>(zip::ZipArchive<R>);

/// `std::io::Cursor`, declared so that the archive reader can run over a
/// plain byte vector instead of an open file.
#[verifier::external_type_specification]
#[verifier::external_body]
#[verifier::reject_recursive_types(T)]
pub struct ExCursor<T>(std::io::Cursor<T>);

/// One member of an archive, as plain values: its path inside the container,
/// its decompressed bytes, and whether it is a directory entry.
pub struct ArchiveEntry {
    pub name: String,
    pub data: Vec<u8>,
    pub is_dir: bool,
}

/// The members a reader yields, in index order: for each, its path, its
/// decompressed bytes, and whether it is a directory entry. A function of
/// the archive's bytes alone.
pub uninterp spec fn entries_of(a: zip::ZipArchive<std::io::Cursor<Vec<u8>>>) -> Seq<
    (Seq<char>, Seq<u8>, bool),
>;

/// Whether every member of the reader can be read in full: looking a member
/// up and decompressing its bytes succeeds at every index. A function of the
/// archive's bytes alone.
pub uninterp spec fn members_readable(a: zip::ZipArchive<std::io::Cursor<Vec<u8>>>) -> bool;

/// Whether a byte buffer parses as an archive container. A function of the
/// bytes alone.
pub uninterp spec fn opens_as_archive(bytes: Seq<u8>) -> bool;

/// Relies on `zip::ZipArchive::new`: parses the buffer's central directory
/// and returns a reader over it exactly when the buffer is a valid archive,
/// or the error's text otherwise.
#[verifier::external_body]
pub(crate) fn open_archive(bytes: Vec<u8>) -> (r: Result<
    zip::ZipArchive<std::io::Cursor<Vec<u8>>>,
    String,
>)
    ensures
        r is Ok <==> opens_as_archive(bytes@),
{
    match zip::ZipArchive::new(std::io::Cursor::new(bytes)) {
        Ok(a) => Ok(a),
        Err(e) => Err(e.to_string()),
    }
}

/// Relies on `zip::ZipArchive::len`: the number of members in the archive.
#[verifier::external_body]
pub(crate) fn entry_count(a: &zip::ZipArchive<std::io::Cursor<Vec<u8>>>) -> (r: usize)
    ensures
        r == entries_of(*a).len(),
{
    a.len()
}

/// Relies on `zip::ZipArchive::by_index` and `std::io::Read::read_to_end`:
/// yields member `i` as plain values, or the error's text when it cannot be
/// read — never an error when every member of the reader is readable; either
/// way the archive's members are unchanged.
#[verifier::external_body]
pub(crate) fn read_entry(a: &mut zip::ZipArchive<std::io::Cursor<Vec<u8>>>, i: usize) -> (r:
    Result<ArchiveEntry, String>)
    requires
        i < entries_of(*old(a)).len(),
    ensures
        entries_of(*final(a)) == entries_of(*old(a)),
        members_readable(*final(a)) == members_readable(*old(a)),
        members_readable(*old(a)) ==> r is Ok,
        r matches Ok(entry) ==> entry.name@ == entries_of(*final(a))[i as int].0
            && entry.data@ == entries_of(*final(a))[i as int].1 && entry.is_dir == entries_of(
            *final(a),
        )[i as int].2,
{
    match a.by_index(i) {
        Ok(mut f) => {
            let name = f.name().to_string();
            let is_dir = f.is_dir();
            let mut data = Vec::new();
            match std::io::Read::read_to_end(&mut f, &mut data) {
                Ok(_) => Ok(ArchiveEntry { name, data, is_dir }),
                Err(e) => Err(e.to_string()),
            }
        },
        Err(e) => Err(e.to_string()),
    }
}

} // verus!
