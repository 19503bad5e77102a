//! The archive builder and the binary packer: from the files of an asset
//! directory and a base executable to the packed image.

use vstd::prelude::*;
use vstd::string::StrSliceExecFns;
use vstd::string::StringSliceAdditionalSpecFns;
use crate::archive::{
    add_file, finish_writer, name_fits, new_writer, writer_accepts, writer_entries, zip_image,
    ArchiveWriter, Compression, WrittenEntry,
};
use crate::container::{embedded, lemma_pack_then_extract, pack, packed};
use crate::fault::Fault;
use crate::text::{forward_slashes, normalize_separators};

verus! {

/// The permission bits recorded with every entry: `rw-r--r--`.
pub const ENTRY_PERMISSIONS: u32 = 0o644;

/// One regular file of the asset directory.
#[derive(Clone, Debug, PartialEq, Eq)]
pub struct AssetFile {
    /// Path relative to the asset directory, spelled as the host spells it.
    pub path: String,
    /// The file's content.
    pub bytes: Vec<u8>,
}

/// Why packing stopped. No image is produced in either case.
#[derive(Clone, Copy, Debug, PartialEq, Eq, Structural)]
pub enum PackFault {
    /// The archive writer refused the file at this position of the list.
    EntryRefused(usize),
    /// The archive writer failed to close the archive.
    NotFinished,
}

/// The entry that a file becomes: named by its path with forward slashes,
/// deflate-compressed, with the fixed permissions.
pub open spec fn entry_of(file: AssetFile) -> WrittenEntry {
    WrittenEntry {
        name: forward_slashes(file.path@),
        data: file.bytes@,
        method: Compression::Deflated,
        permissions: ENTRY_PERMISSIONS,
    }
}

/// The entries that a list of files becomes, in the order of the list.
pub open spec fn entries_of(files: Seq<AssetFile>) -> Seq<WrittenEntry> {
    files.map_values(|file: AssetFile| entry_of(file))
}

/// Whether a name is a relative path: not empty, and not led by a slash.
pub open spec fn relative_name(name: Seq<char>) -> bool {
    name.len() > 0 && name[0] != '/'
}

/// Whether the entry at `index` goes into the archive after all the entries
/// before it: its name is a relative path that fits the length field of an
/// entry header, and the writer accepts it.
pub open spec fn taken_at(entries: Seq<WrittenEntry>, index: int) -> bool {
    &&& relative_name(entries[index].name)
    &&& name_fits(entries[index].name)
    &&& writer_accepts(entries.subrange(0, index), entries[index])
}

/// Whether the entry at `index` is the first that does not go into the
/// archive: its name is empty, absolute or too long, or the writer does not
/// accept it.
pub open spec fn refused_at(entries: Seq<WrittenEntry>, index: int) -> bool {
    &&& 0 <= index < entries.len()
    &&& !taken_at(entries, index)
    &&& forall|j: int| 0 <= j < index ==> #[trigger] taken_at(entries, j)
}

/// What building an archive from `entries` comes to: the writer's image of
/// exactly these entries where they all go in and the writer closes, else
/// the position of the first entry that is refused, else the writer's
/// failure to close.
pub open spec fn built(entries: Seq<WrittenEntry>) -> Result<Seq<u8>, PackFault> {
    if exists|index: int| refused_at(entries, index) {
        Err(PackFault::EntryRefused((choose|index: int| refused_at(entries, index)) as usize))
    } else {
        match zip_image(entries) {
            Some(bytes) => Ok(bytes),
            None => Err(PackFault::NotFinished),
        }
    }
}

/// Whether no two entries bear the same name.
pub open spec fn distinct_names(entries: Seq<WrittenEntry>) -> bool {
    forall|i: int, j: int|
        0 <= i < j < entries.len() ==> (#[trigger] entries[i]).name != (#[trigger] entries[j]).name
}

/// Whether every entry is named by a relative path.
pub open spec fn relative_names(entries: Seq<WrittenEntry>) -> bool {
    forall|i: int| 0 <= i < entries.len() ==> relative_name((#[trigger] entries[i]).name)
}

/// The view of a packing outcome.
pub open spec fn pack_view(outcome: Result<Vec<u8>, PackFault>) -> Result<Seq<u8>, PackFault> {
    match outcome {
        Ok(bytes) => Ok(bytes@),
        Err(fault) => Err(fault),
    }
}

/// At most one position is the first refusal.
pub proof fn lemma_refused_at_unique(entries: Seq<WrittenEntry>, a: int, b: int)
    requires
        refused_at(entries, a),
        refused_at(entries, b),
    ensures
        a == b,
{
    if a < b {
        assert(taken_at(entries, a));
    } else if b < a {
        assert(taken_at(entries, b));
    }
}

/// Whether the name is a relative path that fits the length field of an
/// entry header.
fn name_admitted(name: &str) -> (admitted: bool)
    ensures
        admitted == (relative_name(name@) && name_fits(name@)),
{
    if name.is_empty() || name.as_bytes().len() > 0xffff {
        return false;
    }
    name.get_char(0) != '/'
}

/// Writes every file into a fresh archive, in order, and closes it: one
/// entry per file, named by its path with forward slashes, holding its bytes
/// unchanged. Building stops at the first entry that is refused, and no
/// archive is returned then. A finished archive holds no name twice.
pub fn build_archive(files: &Vec<AssetFile>) -> (archive: Result<Vec<u8>, PackFault>)
    ensures
        pack_view(archive) == built(entries_of(files@)),
        archive is Ok ==> distinct_names(entries_of(files@)) && relative_names(
            entries_of(files@),
        ),
{
    let ghost entries = entries_of(files@);
    let mut writer: ArchiveWriter = new_writer();
    let mut i: usize = 0;
    while i < files.len()
        invariant
            i <= files@.len(),
            entries == entries_of(files@),
            writer_entries(writer) == entries.subrange(0, i as int),
            forall|j: int| 0 <= j < i ==> #[trigger] taken_at(entries, j),
            forall|a: int, b: int|
                0 <= a < b < i ==> (#[trigger] entries[a]).name != (#[trigger] entries[b]).name,
        decreases files@.len() - i,
    {
        let file = &files[i];
        let name = normalize_separators(file.path.as_str());
        let added = name_admitted(name.as_str()) && add_file(
            &mut writer,
            name.as_str(),
            file.bytes.as_slice(),
            Compression::Deflated,
            ENTRY_PERMISSIONS,
        ).is_ok();
        if !added {
            proof {
                assert(refused_at(entries, i as int));
                let chosen = choose|index: int| refused_at(entries, index);
                lemma_refused_at_unique(entries, i as int, chosen);
            }
            return Err(PackFault::EntryRefused(i));
        }
        proof {
            let before = entries.subrange(0, i as int);
            assert forall|a: int| 0 <= a < i implies (#[trigger] entries[a]).name != entries[i as int].name by {
                assert(before[a] == entries[a]);
            }
            assert(entries.subrange(0, i + 1) =~= before.push(entry_of(files@[i as int])));
        }
        i += 1;
    }
    assert(entries.subrange(0, files@.len() as int) =~= entries);
    proof {
        assert forall|index: int| !refused_at(entries, index) by {
            if 0 <= index < entries.len() {
                assert(taken_at(entries, index));
            }
        }
        assert forall|index: int| 0 <= index < entries.len() implies relative_name(
            (#[trigger] entries[index]).name,
        ) by {
            assert(taken_at(entries, index));
        }
    }
    match finish_writer(writer) {
        Ok(bytes) => Ok(bytes),
        Err(_) => Err(PackFault::NotFinished),
    }
}

/// What packing `assets` behind `base` comes to: the packed image of the
/// archive built from the assets, or the reason no archive was built.
pub open spec fn packed_assets(base: Seq<u8>, entries: Seq<WrittenEntry>) -> Result<
    Seq<u8>,
    PackFault,
> {
    match built(entries) {
        Ok(archive) => Ok(packed(base, archive)),
        Err(fault) => Err(fault),
    }
}

/// Packs the assets behind the base executable: the base byte for byte, the
/// archive built from `assets`, then the footer. The loader finds exactly
/// that archive in the image, and its entries are named by relative paths,
/// no two alike.
pub fn zip_assets(base: &[u8], assets: &Vec<AssetFile>) -> (image: Result<Vec<u8>, PackFault>)
    ensures
        pack_view(image) == packed_assets(base@, entries_of(assets@)),
        image matches Ok(bytes) ==> zip_image(entries_of(assets@)) matches Some(archive)
            && embedded(bytes@) == Ok::<Seq<u8>, Fault>(archive),
        image is Ok ==> distinct_names(entries_of(assets@)) && relative_names(
            entries_of(assets@),
        ),
{
    match build_archive(assets) {
        Ok(archive) => Ok(pack(base, archive.as_slice())),
        Err(fault) => Err(fault),
    }
}

/// A normalized path holds no backslash, and differs from the path as the
/// host spells it only where that one holds a backslash.
pub proof fn lemma_forward_slashes(path: Seq<char>)
    ensures
        forward_slashes(path).len() == path.len(),
        forall|i: int| 0 <= i < path.len() ==> #[trigger] forward_slashes(path)[i] != '\\',
        forall|i: int|
            0 <= i < path.len() && path[i] != '\\' ==> #[trigger] forward_slashes(path)[i] == path[i],
        forward_slashes(forward_slashes(path)) == forward_slashes(path),
{
    assert(forward_slashes(forward_slashes(path)) =~= forward_slashes(path));
}

/// Packing and then loading gives back the archive that the writer makes of
/// exactly the files handed in: one entry per file and no other, in order,
/// each named by the file's path with forward slashes and holding the
/// file's bytes.
pub proof fn lemma_packed_assets_load(base: Seq<u8>, files: Seq<AssetFile>)
    ensures
        entries_of(files).len() == files.len(),
        forall|i: int|
            0 <= i < files.len() ==> {
                &&& (#[trigger] entries_of(files)[i]).name == forward_slashes(files[i].path@)
                &&& entries_of(files)[i].data == files[i].bytes@
            },
        zip_image(entries_of(files)) matches Some(archive) ==> (archive.len() <= u64::MAX
            ==> embedded(packed(base, archive)) == Ok::<Seq<u8>, Fault>(archive)),
{
    match zip_image(entries_of(files)) {
        Some(archive) => {
            if archive.len() <= u64::MAX {
                lemma_pack_then_extract(base, archive);
            }
        },
        None => {},
    }
}

} // verus!
