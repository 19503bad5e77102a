//! The compressed archive that carries the assets, read and written by the
//! `zip` crate.
//!
//! Nothing of the ZIP format is proved here. Each item below that speaks of
//! the `zip` crate is believed as stated; the logic that builds and resolves
//! bundles is verified against these statements.

use std::io::Read;
use std::io::Write;
use vstd::prelude::*;
use vstd::string::StringSliceAdditionalSpecFns;

verus! {

/// `std::io::Cursor`, carried as an opaque value.
#[verifier::external_type_specification]
#[verifier::external_body]
#[verifier::reject_recursive_types(T)]
pub struct ExCursor<T>(std::io::Cursor<T>);

/// The `zip` crate's archive reader, carried as an opaque value.
#[verifier::external_type_specification]
#[verifier::external_body]
#[verifier::reject_recursive_types(R)]
pub struct ExZipArchive<R>(zip::ZipArchive<R>);

/// The `zip` crate's archive writer over an in-memory buffer, held as an
/// opaque value: nothing is known of it but what the items below state.
#[verifier::external_body]
pub struct ArchiveWriter {
    inner: zip::ZipWriter<std::io::Cursor<Vec<u8>>>,
}

/// The `zip` crate's error, carried as an opaque value.
#[verifier::external_type_specification]
#[verifier::external_body]
pub struct ExZipError(zip::result::ZipError);

/// How the bytes of an entry are stored.
#[derive(Clone, Copy, Debug, PartialEq, Eq, Structural)]
pub enum Compression {
    /// As they are.
    Stored,
    /// Deflate-compressed.
    Deflated,
}

/// One entry as the reader lists it.
pub ghost struct ListedEntry {
    /// The entry's name, as the archive's directory records it.
    pub name: Seq<char>,
    /// The entry's content decoded as UTF-8 text, or `None` where the entry
    /// does not open, cannot be read, or is not UTF-8.
    pub text: Option<Seq<char>>,
}

/// One entry as it was handed to the writer.
pub ghost struct WrittenEntry {
    pub name: Seq<char>,
    pub data: Seq<u8>,
    pub method: Compression,
    pub permissions: u32,
}

/// The name of the entry listed at `index`: `None` where the index is out of
/// range.
pub open spec fn listed_name(listing: Seq<ListedEntry>, index: int) -> Option<Seq<char>> {
    if 0 <= index < listing.len() {
        Some(listing[index].name)
    } else {
        None
    }
}

/// The text of the entry listed at `index`: `None` where the index is out of
/// range, the entry does not open, or its content is no text.
pub open spec fn listed_text(listing: Seq<ListedEntry>, index: int) -> Option<Seq<char>> {
    if 0 <= index < listing.len() {
        listing[index].text
    } else {
        None
    }
}

/// Whether a name fits the sixteen-bit length field of an entry header: at
/// most 65,535 bytes of UTF-8.
pub open spec fn name_fits(name: Seq<char>) -> bool {
    vstd::utf8::encode_utf8(name).len() <= 0xffff
}

/// Whether `entries` holds an entry named `name`.
pub open spec fn holds_name(entries: Seq<WrittenEntry>, name: Seq<char>) -> bool {
    exists|i: int| 0 <= i < entries.len() && (#[trigger] entries[i]).name == name
}

/// What an open archive lists, by index: for each entry the name that
/// `ZipArchive::name_for_index` reports and the text that
/// `ZipArchive::by_index` with `Read::read_to_string` yields.
pub uninterp spec fn archive_listing(archive: zip::ZipArchive<std::io::Cursor<Vec<u8>>>) -> Seq<
    ListedEntry,
>;

/// What `ZipArchive::new` makes of a payload: the listing of the archive it
/// returns, or `None` where it returns an error.
pub uninterp spec fn payload_listing(payload: Seq<u8>) -> Option<Seq<ListedEntry>>;

/// The entries a writer has been handed so far, in order.
pub uninterp spec fn writer_entries(writer: ArchiveWriter) -> Seq<WrittenEntry>;

/// Whether a writer that was handed `entries` takes `entry` as well: whether
/// `ZipWriter::start_file` and then `Write::write_all` both succeed.
pub uninterp spec fn writer_accepts(entries: Seq<WrittenEntry>, entry: WrittenEntry) -> bool;

/// The archive bytes that `ZipWriter::finish` yields for a writer that was
/// handed `entries`, or `None` where it fails. This crate asks for `zip`
/// without its `time` feature, so every entry is stamped with the fixed
/// date 1980-01-01 and the bytes depend on the entries alone.
pub uninterp spec fn zip_image(entries: Seq<WrittenEntry>) -> Option<Seq<u8>>;

/// Calls `ZipArchive::new` on a cursor over the payload. Trusted: whether it
/// succeeds, and what the archive then lists, depends on the payload alone.
#[verifier::external_body]
pub(crate) fn open_archive(payload: Vec<u8>) -> (opened: Result<
    zip::ZipArchive<std::io::Cursor<Vec<u8>>>,
    zip::result::ZipError,
>)
    ensures
        match opened {
            Ok(archive) => payload_listing(payload@) == Some(archive_listing(archive)),
            Err(_) => payload_listing(payload@) is None,
        },
{
    zip::ZipArchive::new(std::io::Cursor::new(payload))
}

/// Calls `ZipArchive::len`. Trusted: it is the number of entries listed.
#[verifier::external_body]
pub(crate) fn archive_len(archive: &zip::ZipArchive<std::io::Cursor<Vec<u8>>>) -> (count: usize)
    ensures
        count == archive_listing(*archive).len(),
{
    archive.len()
}

/// Calls `ZipArchive::name_for_index`. Trusted: the name is that of the
/// listed entry, and there is none exactly where the index is out of range.
#[verifier::external_body]
pub(crate) fn entry_name(archive: &zip::ZipArchive<std::io::Cursor<Vec<u8>>>, index: usize) -> (name:
    Option<String>)
    ensures
        match name {
            Some(found) => listed_name(archive_listing(*archive), index as int) == Some(found@),
            None => listed_name(archive_listing(*archive), index as int) is None,
        },
{
    match archive.name_for_index(index) {
        Some(found) => Some(found.to_string()),
        None => None,
    }
}

/// Calls `ZipArchive::by_index` and reads the entry with
/// `Read::read_to_string`. Trusted: the text is that of the listed entry, an
/// error means that there is no such entry or that it has no text, and the
/// listing stays as it was.
#[verifier::external_body]
pub(crate) fn entry_text(
    archive: &mut zip::ZipArchive<std::io::Cursor<Vec<u8>>>,
    index: usize,
) -> (text: Result<String, zip::result::ZipError>)
    ensures
        archive_listing(*final(archive)) == archive_listing(*old(archive)),
        match text {
            Ok(found) => listed_text(archive_listing(*old(archive)), index as int) == Some(found@),
            Err(_) => listed_text(archive_listing(*old(archive)), index as int) is None,
        },
{
    let mut file = archive.by_index(index)?;
    let mut found = String::new();
    file.read_to_string(&mut found)?;
    Ok(found)
}

/// Calls `ZipWriter::new` on a cursor over an empty buffer. Trusted: the new
/// writer has been handed no entry.
#[verifier::external_body]
pub(crate) fn new_writer() -> (writer: ArchiveWriter)
    ensures
        writer_entries(writer) == Seq::<WrittenEntry>::empty(),
{
    ArchiveWriter { inner: zip::ZipWriter::new(std::io::Cursor::new(Vec::new())) }
}

/// Calls `ZipWriter::start_file` with the given method and permissions, then
/// `Write::write_all` with the data. The crate converts the length of the
/// name to sixteen bits without a check, so a longer name is left out.
/// Trusted: whether both calls succeed depends only on the entries handed
/// over so far and on this one; they do not where the writer already holds
/// the name; and where they do the writer holds one entry more, the one it
/// was handed.
#[verifier::external_body]
pub(crate) fn add_file(
    writer: &mut ArchiveWriter,
    name: &str,
    data: &[u8],
    method: Compression,
    permissions: u32,
) -> (added: Result<(), zip::result::ZipError>)
    requires
        name.spec_bytes().len() <= 0xffff,
    ensures
        added is Ok == writer_accepts(
            writer_entries(*old(writer)),
            WrittenEntry { name: name@, data: data@, method, permissions },
        ),
        added is Ok ==> !holds_name(writer_entries(*old(writer)), name@),
        added is Ok ==> writer_entries(*final(writer)) == writer_entries(*old(writer)).push(
            WrittenEntry { name: name@, data: data@, method, permissions },
        ),
{
    let method = match method {
        Compression::Stored => zip::CompressionMethod::Stored,
        Compression::Deflated => zip::CompressionMethod::Deflated,
    };
    let options = zip::write::SimpleFileOptions::default().compression_method(
        method,
    ).unix_permissions(permissions);
    writer.inner.start_file(name, options)?;
    writer.inner.write_all(data)?;
    Ok(())
}

/// Calls `ZipWriter::finish` and takes the buffer out of the cursor. Trusted:
/// whether it succeeds, and the bytes it then yields, depend only on the
/// entries the writer was handed.
#[verifier::external_body]
pub(crate) fn finish_writer(writer: ArchiveWriter) -> (image: Result<
    Vec<u8>,
    zip::result::ZipError,
>)
    ensures
        match image {
            Ok(bytes) => zip_image(writer_entries(writer)) == Some(bytes@),
            Err(_) => zip_image(writer_entries(writer)) is None,
        },
{
    let cursor = writer.inner.finish()?;
    Ok(cursor.into_inner())
}

} // verus!
