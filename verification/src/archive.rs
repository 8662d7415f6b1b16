//! Reading the bundled archive.
//!
//! The archive format is the business of the `zip` crate: this module opens
//! an archive held in memory, asks for its entries one by one, and decides
//! what each entry means for the extraction.
//!
//! What the crate answers depends on the archive's bytes alone, so its
//! answers have names here: [`zip_opens`], [`zip_len`], [`zip_entry_opens`],
//! [`zip_entry_name`] and [`zip_entry_content`] say what the crate makes of
//! given bytes, without saying how. The one exception is whether a name is
//! enclosed, which goes by the platform's path rules and is taken as it
//! comes. The decisions are in [`classify_entry`], which is verified for
//! every answer.

use vstd::prelude::*;
use vstd::string::*;
use crate::errors::ExtractionError;

verus! {

/// `std::io::Cursor`, the in-memory reader that the archive is read through.
#[verifier::external_type_specification]
#[verifier::external_body]
#[verifier::reject_recursive_types(T)]
pub struct ExCursor<T>(std::io::Cursor<T>);

/// `zip::ZipArchive`, an opened archive over a reader.
#[verifier::external_type_specification]
#[verifier::external_body]
#[verifier::reject_recursive_types(R)]
pub struct ExZipArchive<R>(zip::ZipArchive<R>);

/// `zip::result::ZipError`, the error of the archive reader.
#[verifier::external_type_specification]
#[verifier::external_body]
pub struct ExZipError(zip::result::ZipError);

/// `std::io::Error`, the error of reading an entry's content.
#[verifier::external_type_specification]
#[verifier::external_body]
pub struct ExIoError(std::io::Error);

/// What the archive says of one entry before its content is read.
pub struct EntryHeader {
    /// The entry's name as a relative path that stays inside the directory
    /// it is unpacked into, or `None` where the name is not such a path.
    pub enclosed_name: Option<String>,
    /// Whether the entry is a directory.
    pub is_dir: bool,
}

/// What an entry asks of the extraction.
pub enum EntryKind {
    /// Create the directory `name`, relative to the server directory.
    Directory { name: String },
    /// Write the entry's content to the file `name`, relative to the server
    /// directory.
    File { name: String },
    /// Stop: the entry cannot be unpacked.
    Rejected(ExtractionError),
}

/// Whether `zip::ZipArchive::new` accepts `bytes` as an archive.
pub uninterp spec fn zip_opens(bytes: Seq<u8>) -> bool;

/// The number of entries that `zip::ZipArchive::len` counts in the archive
/// made of `bytes`.
pub uninterp spec fn zip_len(bytes: Seq<u8>) -> nat;

/// Whether `zip::ZipArchive::by_index` hands out entry `index` of the
/// archive made of `bytes`, ready to be read.
pub uninterp spec fn zip_entry_opens(bytes: Seq<u8>, index: int) -> bool;

/// The name recorded for entry `index` of the archive made of `bytes`: what
/// `zip::read::ZipFile::enclosed_name` hands back where the name is
/// enclosed.
pub uninterp spec fn zip_entry_name(bytes: Seq<u8>, index: int) -> Seq<char>;

/// The decompressed content of entry `index` of the archive made of
/// `bytes`: what `std::io::Read::read_to_end` reads from the entry where it
/// reads it to the end.
pub uninterp spec fn zip_entry_content(bytes: Seq<u8>, index: int) -> Seq<u8>;

/// The bytes that an opened archive was made of.
pub uninterp spec fn archive_source(archive: zip::ZipArchive<std::io::Cursor<Vec<u8>>>) -> Seq<u8>;

/// Where an open entry comes from: the bytes of its archive, and its index.
pub uninterp spec fn entry_origin(entry: OpenEntry<'_>) -> (Seq<u8>, int);

/// Whether `name` ends in a slash or a backslash, which is how an archive
/// marks a directory.
pub open spec fn ends_in_separator(name: Seq<char>) -> bool {
    name.len() > 0 && (name.last() == '/' || name.last() == '\\')
}

/// Calls `zip::ZipArchive::new` on `bytes` behind a `std::io::Cursor`.
/// Whether the bytes are an archive is for the crate to say; an archive
/// that opens is made of these bytes.
#[verifier::external_body]
pub(crate) fn open_archive(bytes: Vec<u8>) -> (opened: Result<
    zip::ZipArchive<std::io::Cursor<Vec<u8>>>,
    zip::result::ZipError,
>)
    ensures
        opened is Ok <==> zip_opens(bytes@),
        opened matches Ok(archive) ==> archive_source(archive) == bytes@,
{
    zip::ZipArchive::new(std::io::Cursor::new(bytes))
}

/// Calls `zip::ZipArchive::len`: the number of entries recorded in the
/// archive.
#[verifier::external_body]
pub(crate) fn archive_len(archive: &zip::ZipArchive<std::io::Cursor<Vec<u8>>>) -> (entries: usize)
    ensures
        entries == zip_len(archive_source(*archive)),
{
    archive.len()
}

/// One entry of an opened archive, ready to be read: `zip::read::ZipFile`
/// over the in-memory reader. It borrows the archive it comes from.
#[verifier::external_body]
pub struct OpenEntry<'a> {
    inner: zip::read::ZipFile<'a, std::io::Cursor<Vec<u8>>>,
}

/// Calls `zip::ZipArchive::by_index`: the entry at `index`, or the reason
/// why it cannot be read. The archive stays the archive of the same bytes,
/// and an entry that is handed out is the one at `index`.
#[verifier::external_body]
pub(crate) fn entry_at<'a>(
    archive: &'a mut zip::ZipArchive<std::io::Cursor<Vec<u8>>>,
    index: usize,
) -> (entry: Result<OpenEntry<'a>, zip::result::ZipError>)
    ensures
        archive_source(*final(archive)) == archive_source(*old(archive)),
        entry is Ok <==> zip_entry_opens(archive_source(*old(archive)), index as int),
        entry matches Ok(opened) ==> entry_origin(opened) == (
            archive_source(*old(archive)),
            index as int,
        ),
{
    archive.by_index(index).map(|inner| OpenEntry { inner })
}

/// Calls `zip::read::ZipFile::enclosed_name` and hands the path back as
/// text. Whether the name is enclosed goes by the platform's path rules and
/// is not stated; a name that is handed back is the entry's name as
/// recorded.
#[verifier::external_body]
pub(crate) fn entry_enclosed_name<'a>(entry: &OpenEntry<'a>) -> (name: Option<String>)
    ensures
        name matches Some(enclosed) ==> enclosed@ == zip_entry_name(
            entry_origin(*entry).0,
            entry_origin(*entry).1,
        ),
{
    entry.inner.enclosed_name().map(|path| path.to_string_lossy().into_owned())
}

/// Calls `zip::read::ZipFile::is_dir`: whether the entry's recorded name
/// ends in a slash or a backslash.
#[verifier::external_body]
pub(crate) fn entry_is_dir<'a>(entry: &OpenEntry<'a>) -> (is_dir: bool)
    ensures
        is_dir == ends_in_separator(
            zip_entry_name(entry_origin(*entry).0, entry_origin(*entry).1),
        ),
{
    entry.inner.is_dir()
}

/// Calls `std::io::Read::read_to_end` on the entry, appending to `contents`
/// what could be read, and returns the error that stopped the reading, if
/// one did. The entry is used up, so that it is read from its start and
/// only once: without an error, what was appended is its whole content.
#[verifier::external_body]
pub(crate) fn entry_read_to_end<'a>(entry: OpenEntry<'a>, contents: &mut Vec<u8>) -> (fault:
    Option<std::io::Error>)
    ensures
        fault is None ==> final(contents)@ == old(contents)@ + zip_entry_content(
            entry_origin(entry).0,
            entry_origin(entry).1,
        ),
{
    let mut entry = entry;
    std::io::Read::read_to_end(&mut entry.inner, contents).err()
}

/// What the entry at `index` asks of the extraction, given what the archive
/// said of it: `header`, or the cause for which it could not be read.
///
/// An unreadable entry is rejected with its index and the cause. An entry
/// without an enclosed name is rejected as invalid, so that nothing is ever
/// written for a name that leaves the server directory. Any other entry is a
/// directory or a file under its enclosed name.
pub open spec fn entry_kind(
    index: usize,
    header: Result<EntryHeader, String>,
    kind: EntryKind,
) -> bool {
    match header {
        Err(cause) => kind matches EntryKind::Rejected(
            ExtractionError::EntryUnreadable { index: i, cause: c },
        ) && i == index && c@ == cause@,
        Ok(h) => match h.enclosed_name {
            None => kind == EntryKind::Rejected(ExtractionError::InvalidEntryName),
            Some(enclosed) => if h.is_dir {
                kind matches EntryKind::Directory { name } && name@ == enclosed@
            } else {
                kind matches EntryKind::File { name } && name@ == enclosed@
            },
        },
    }
}

/// Decides what the entry at `index` asks of the extraction.
pub fn classify_entry(index: usize, header: Result<EntryHeader, String>) -> (kind: EntryKind)
    ensures
        entry_kind(index, header, kind),
{
    match header {
        Err(cause) => EntryKind::Rejected(ExtractionError::EntryUnreadable { index, cause }),
        Ok(h) => match h.enclosed_name {
            None => EntryKind::Rejected(ExtractionError::InvalidEntryName),
            Some(name) => if h.is_dir {
                EntryKind::Directory { name }
            } else {
                EntryKind::File { name }
            },
        },
    }
}

} // verus!
