//! The packed-binary layout: base executable, archive, twelve-byte footer.
//!
//! ```text
//! [ base executable ][ archive (L bytes) ][ "ASST" ][ L as 8 bytes, little endian ]
//! ```
//!
//! The footer is always the last twelve bytes of the image, so the archive is
//! found from the end of the file without scanning.

use vstd::prelude::*;
use crate::fault::{spec_exit_code, Fault};

verus! {

/// Number of bytes in the magic marker.
pub const MAGIC_LEN: usize = 4;

/// Number of bytes in the length field of the footer.
pub const LENGTH_LEN: usize = 8;

/// Number of bytes in the footer: the magic, then the archive length.
pub const FOOTER_LEN: usize = 12;

/// The marker `ASST` that opens the footer.
pub open spec fn magic() -> Seq<u8> {
    seq![0x41u8, 0x53u8, 0x53u8, 0x54u8]
}

/// 256 to the power `width`.
pub open spec fn radix(width: nat) -> nat
    decreases width,
{
    if width == 0 {
        1
    } else {
        256 * radix((width - 1) as nat)
    }
}

/// The `width` low-order bytes of `value`, least significant first.
pub open spec fn le_bytes(value: nat, width: nat) -> Seq<u8>
    decreases width,
{
    if width == 0 {
        Seq::empty()
    } else {
        seq![(value % 256) as u8] + le_bytes(value / 256, (width - 1) as nat)
    }
}

/// The number that `bytes` spells, least significant byte first.
pub open spec fn le_value(bytes: Seq<u8>) -> nat
    decreases bytes.len(),
{
    if bytes.len() == 0 {
        0
    } else {
        bytes[0] as nat + 256 * le_value(bytes.drop_first())
    }
}

/// The footer that closes an image whose archive is `archive_len` bytes long.
pub open spec fn footer(archive_len: nat) -> Seq<u8> {
    magic() + le_bytes(archive_len, 8)
}

/// The packed image: the base untouched, then the archive, then the footer.
pub open spec fn packed(base: Seq<u8>, archive: Seq<u8>) -> Seq<u8> {
    base + archive + footer(archive.len())
}

/// Whether a twelve-byte tail opens with the magic.
pub open spec fn tail_has_magic(tail: Seq<u8>) -> bool {
    tail.len() == 12 && tail.subrange(0, 4) == magic()
}

/// The archive length that a twelve-byte tail declares.
pub open spec fn tail_declared_len(tail: Seq<u8>) -> nat {
    le_value(tail.subrange(4, 12))
}

/// The last twelve bytes of `image`, or all of it where it is shorter.
pub open spec fn tail_of(image: Seq<u8>) -> Seq<u8> {
    if image.len() >= 12 {
        image.subrange(image.len() - 12, image.len() as int)
    } else {
        image
    }
}

/// Where the archive lies in an image of `file_len` bytes that ends in `tail`:
/// its offset from the start and its length.
pub open spec fn located(file_len: nat, tail: Seq<u8>) -> Result<(nat, nat), Fault> {
    if !tail_has_magic(tail) {
        Err(Fault::ArchiveNotFound)
    } else if file_len < 12 || tail_declared_len(tail) > file_len - 12 {
        Err(Fault::ArchiveCorrupt)
    } else {
        Ok(((file_len - 12 - tail_declared_len(tail)) as nat, tail_declared_len(tail)))
    }
}

/// The archive embedded in `image`, or the reason there is none.
pub open spec fn embedded(image: Seq<u8>) -> Result<Seq<u8>, Fault> {
    match located(image.len(), tail_of(image)) {
        Ok((offset, len)) => Ok(image.subrange(offset as int, (offset + len) as int)),
        Err(fault) => Err(fault),
    }
}

/// `le_bytes` yields exactly `width` bytes.
pub proof fn lemma_le_bytes_len(value: nat, width: nat)
    ensures
        le_bytes(value, width).len() == width,
    decreases width,
{
    if width > 0 {
        lemma_le_bytes_len(value / 256, (width - 1) as nat);
    }
}

/// A byte string spells a number below 256 to the power of its length.
pub proof fn lemma_le_value_bound(bytes: Seq<u8>)
    ensures
        le_value(bytes) < radix(bytes.len()),
    decreases bytes.len(),
{
    if bytes.len() > 0 {
        lemma_le_value_bound(bytes.drop_first());
    }
}

/// `radix` never shrinks as the width grows.
pub proof fn lemma_radix_monotonic(narrow: nat, wide: nat)
    requires
        narrow <= wide,
    ensures
        0 < radix(narrow) <= radix(wide),
    decreases wide,
{
    if narrow < wide {
        lemma_radix_monotonic(narrow, (wide - 1) as nat);
    } else if wide > 0 {
        lemma_radix_monotonic((narrow - 1) as nat, (wide - 1) as nat);
    }
}

/// Eight bytes hold every `u64` and nothing more.
pub proof fn lemma_radix_eight()
    ensures
        radix(7) == 0x100_0000_0000_0000,
        radix(8) == 0x1_0000_0000_0000_0000,
{
    reveal_with_fuel(radix, 9);
}

/// Decoding undoes encoding for every value that fits the width.
pub proof fn lemma_le_round_trip(value: nat, width: nat)
    requires
        value < radix(width),
    ensures
        le_value(le_bytes(value, width)) == value,
    decreases width,
{
    if width > 0 {
        let rest = le_bytes(value / 256, (width - 1) as nat);
        let bytes = le_bytes(value, width);
        assert(bytes.drop_first() =~= rest);
        lemma_le_round_trip(value / 256, (width - 1) as nat);
    }
}

/// Where the archive lies within a packed image.
#[derive(Clone, Copy, Debug, PartialEq, Eq, Structural)]
pub struct ArchiveSpan {
    /// Offset of the first archive byte from the start of the image.
    pub offset: u64,
    /// Number of archive bytes.
    pub len: u64,
}

/// Appends `src` to `out`.
fn append_bytes(out: &mut Vec<u8>, src: &[u8])
    ensures
        final(out)@ == old(out)@ + src@,
{
    let mut i: usize = 0;
    while i < src.len()
        invariant
            i <= src@.len(),
            out@ == old(out)@ + src@.subrange(0, i as int),
        decreases src@.len() - i,
    {
        out.push(src[i]);
        i += 1;
        assert(src@.subrange(0, i as int) =~= src@.subrange(0, i - 1).push(src@[i - 1]));
    }
    assert(src@.subrange(0, src@.len() as int) =~= src@);
}

/// The eight bytes of the footer's length field for `len`.
pub fn encode_length(len: u64) -> (bytes: Vec<u8>)
    ensures
        bytes@ == le_bytes(len as nat, 8),
        le_value(bytes@) == len,
{
    let mut bytes: Vec<u8> = Vec::new();
    let mut rest: u64 = len;
    let mut written: usize = 0;
    while written < LENGTH_LEN
        invariant
            written <= 8,
            bytes@ + le_bytes(rest as nat, (8 - written) as nat) == le_bytes(len as nat, 8),
        decreases 8 - written,
    {
        let ghost before = bytes@;
        let ghost pending = le_bytes(rest as nat, (8 - written) as nat);
        bytes.push((rest % 256) as u8);
        rest = rest / 256;
        written += 1;
        assert(bytes@ + le_bytes(rest as nat, (8 - written) as nat) =~= before + pending);
    }
    proof {
        assert(bytes@ + Seq::<u8>::empty() =~= bytes@);
        lemma_radix_eight();
        lemma_le_round_trip(len as nat, 8);
    }
    bytes
}

/// The number that at most eight bytes spell, least significant first.
pub fn decode_length(bytes: &[u8]) -> (value: u64)
    requires
        bytes@.len() <= 8,
    ensures
        value == le_value(bytes@),
{
    let total: usize = bytes.len();
    let mut value: u64 = 0;
    let mut i: usize = total;
    while i > 0
        invariant
            i <= total <= 8,
            total == bytes@.len(),
            value == le_value(bytes@.subrange(i as int, total as int)),
        decreases i,
    {
        let ghost done = bytes@.subrange(i as int, total as int);
        i -= 1;
        proof {
            lemma_le_value_bound(done);
            lemma_radix_monotonic(done.len(), 7);
            lemma_radix_eight();
            assert(bytes@.subrange(i as int, total as int).drop_first() =~= done);
        }
        value = value * 256 + bytes[i] as u64;
    }
    assert(bytes@.subrange(0, total as int) =~= bytes@);
    value
}

/// The twelve footer bytes for an archive of `archive_len` bytes.
pub fn encode_footer(archive_len: u64) -> (bytes: Vec<u8>)
    ensures
        bytes@ == footer(archive_len as nat),
        bytes@.len() == 12,
{
    let mut bytes: Vec<u8> = Vec::new();
    bytes.push(0x41u8);
    bytes.push(0x53u8);
    bytes.push(0x53u8);
    bytes.push(0x54u8);
    assert(bytes@ =~= magic());
    let length = encode_length(archive_len);
    append_bytes(&mut bytes, length.as_slice());
    proof {
        lemma_le_bytes_len(archive_len as nat, 8);
    }
    bytes
}

/// Packs `archive` behind `base`: a copy of the base, the archive, the footer.
pub fn pack(base: &[u8], archive: &[u8]) -> (image: Vec<u8>)
    ensures
        image@ == packed(base@, archive@),
        image@.len() == base@.len() + archive@.len() + 12,
        embedded(image@) == Ok::<Seq<u8>, Fault>(archive@),
{
    let mut image: Vec<u8> = Vec::new();
    append_bytes(&mut image, base);
    append_bytes(&mut image, archive);
    let tail = encode_footer(archive.len() as u64);
    append_bytes(&mut image, tail.as_slice());
    proof {
        assert(image@ =~= packed(base@, archive@));
        lemma_pack_then_extract(base@, archive@);
    }
    image
}

/// Reads the footer held in `tail`, the last twelve bytes of an image, and
/// returns the archive length it declares.
pub fn parse_footer(tail: &[u8]) -> (declared: Result<u64, Fault>)
    ensures
        match declared {
            Ok(len) => tail_has_magic(tail@) && len == tail_declared_len(tail@),
            Err(fault) => fault == Fault::ArchiveNotFound && !tail_has_magic(tail@),
        },
{
    if tail.len() != FOOTER_LEN {
        return Err(Fault::ArchiveNotFound);
    }
    if tail[0] != 0x41u8 || tail[1] != 0x53u8 || tail[2] != 0x53u8 || tail[3] != 0x54u8 {
        assert(tail@.subrange(0, 4)[0] == tail@[0]);
        assert(tail@.subrange(0, 4)[1] == tail@[1]);
        assert(tail@.subrange(0, 4)[2] == tail@[2]);
        assert(tail@.subrange(0, 4)[3] == tail@[3]);
        return Err(Fault::ArchiveNotFound);
    }
    assert(tail@.subrange(0, 4) =~= magic());
    let field = vstd::slice::slice_subrange(tail, MAGIC_LEN, FOOTER_LEN);
    Ok(decode_length(field))
}

/// Finds the archive in an image of `file_len` bytes whose last twelve bytes
/// are `tail`, without looking at the rest of the image.
pub fn locate_archive(file_len: u64, tail: &[u8]) -> (span: Result<ArchiveSpan, Fault>)
    ensures
        match located(file_len as nat, tail@) {
            Ok((offset, len)) => span == Ok::<ArchiveSpan, Fault>(
                ArchiveSpan { offset: offset as u64, len: len as u64 },
            ),
            Err(fault) => span == Err::<ArchiveSpan, Fault>(fault),
        },
        span matches Ok(s) ==> s.offset + s.len + 12 == file_len,
{
    let declared = match parse_footer(tail) {
        Ok(len) => len,
        Err(fault) => {
            return Err(fault);
        },
    };
    if file_len < 12 || declared > file_len - 12 {
        return Err(Fault::ArchiveCorrupt);
    }
    Ok(ArchiveSpan { offset: file_len - 12 - declared, len: declared })
}

/// Recovers the archive embedded in a whole image held in memory.
pub fn load_embedded_assets(image: &[u8]) -> (archive: Result<Vec<u8>, Fault>)
    ensures
        match embedded(image@) {
            Ok(bytes) => archive matches Ok(found) && found@ == bytes,
            Err(fault) => archive matches Err(f) && f == fault,
        },
{
    let total: usize = image.len();
    let tail = if total >= FOOTER_LEN {
        vstd::slice::slice_subrange(image, total - FOOTER_LEN, total)
    } else {
        image
    };
    let span = match locate_archive(total as u64, tail) {
        Ok(span) => span,
        Err(fault) => {
            return Err(fault);
        },
    };
    let start: usize = span.offset as usize;
    let end: usize = start + span.len as usize;
    let mut found: Vec<u8> = Vec::new();
    append_bytes(&mut found, vstd::slice::slice_subrange(image, start, end));
    Ok(found)
}

/// What the loader finds in a packed image is exactly the archive
/// that was packed, whatever the base executable holds, as long as the
/// archive's length fits the eight-byte length field.
pub proof fn lemma_pack_then_extract(base: Seq<u8>, archive: Seq<u8>)
    requires
        archive.len() <= u64::MAX,
    ensures
        embedded(packed(base, archive)) == Ok::<Seq<u8>, Fault>(archive),
{
    lemma_footer_integrity(base, archive);
    let image = packed(base, archive);
    assert(image.subrange(base.len() as int, (base.len() + archive.len()) as int) =~= archive);
}

/// The last twelve bytes of a packed image are the magic
/// followed by the archive's length, the archive is the run of that many
/// bytes that ends where the footer begins, and everything before it is the
/// base executable, byte for byte.
pub proof fn lemma_footer_integrity(base: Seq<u8>, archive: Seq<u8>)
    requires
        archive.len() <= u64::MAX,
    ensures
        ({
            let image = packed(base, archive);
            let end = image.len() as int;
            &&& end == base.len() + archive.len() + 12
            &&& image.subrange(end - 12, end - 8) == magic()
            &&& le_value(image.subrange(end - 8, end)) == archive.len()
            &&& image.subrange(end - 12 - archive.len(), end - 12) == archive
            &&& image.subrange(0, base.len() as int) == base
            &&& tail_of(image) == footer(archive.len())
            &&& tail_has_magic(tail_of(image))
            &&& tail_declared_len(tail_of(image)) == archive.len()
        }),
{
    let image = packed(base, archive);
    let end = image.len() as int;
    let field = le_bytes(archive.len(), 8);
    lemma_le_bytes_len(archive.len(), 8);
    lemma_radix_eight();
    lemma_le_round_trip(archive.len(), 8);
    assert(image.subrange(end - 12, end - 8) =~= magic());
    assert(image.subrange(end - 8, end) =~= field);
    assert(image.subrange(end - 12 - archive.len(), end - 12) =~= archive);
    assert(image.subrange(0, base.len() as int) =~= base);
    assert(tail_of(image) =~= footer(archive.len()));
    assert(tail_of(image).subrange(0, 4) =~= magic());
    assert(tail_of(image).subrange(4, 12) =~= field);
}

/// Overwrite any one of the four magic bytes of a packed
/// image with a different value and the loader reports `ArchiveNotFound`; it
/// never reads an archive from a wrong offset.
pub proof fn lemma_magic_damage_detected(base: Seq<u8>, archive: Seq<u8>, which: int, byte: u8)
    requires
        archive.len() <= u64::MAX,
        0 <= which < 4,
        byte != magic()[which],
    ensures
        embedded(packed(base, archive).update(base.len() + archive.len() + which, byte))
            == Err::<Seq<u8>, Fault>(Fault::ArchiveNotFound),
        spec_exit_code(Some(Fault::ArchiveNotFound)) != 0,
{
    lemma_footer_integrity(base, archive);
    let image = packed(base, archive);
    let damaged = image.update(base.len() + archive.len() + which, byte);
    let tail = tail_of(damaged);
    assert(tail.subrange(0, 4)[which] == byte);
}

} // verus!
