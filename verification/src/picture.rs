//! Picture files: those whose palette is cut off in the middle of a colour.
//!
//! A PNG file is a signature and chunks: a length of four bytes, a name of four bytes, as many bytes
//! as the length says, and a checksum of four bytes. The first chunk is the header. The chunk `PLTE`
//! holds the colours of a picture whose pixels are numbers of colours, three bytes for each, and
//! stands in front of the pixels, which the chunk `IDAT` holds. An ICO file is a directory and
//! pictures, each of which can be a PNG file.
use vstd::prelude::*;

verus! {

/// The colour type of a picture whose pixels are numbers of colours.
pub const INDEXED: u8 = 3;

/// A number of two bytes, the low one first.
pub open spec fn little_16(bytes: Seq<u8>, at: int) -> nat {
    bytes[at] as nat + 256 * bytes[at + 1] as nat
}

/// A number of four bytes, the low one first.
pub open spec fn little_32(bytes: Seq<u8>, at: int) -> nat {
    little_16(bytes, at) + 65536 * little_16(bytes, at + 2)
}

/// A number of four bytes, the high one first.
pub open spec fn big_32(bytes: Seq<u8>, at: int) -> nat {
    16777216 * bytes[at] as nat + 65536 * bytes[at + 1] as nat + 256 * bytes[at + 2] as nat
        + bytes[at + 3] as nat
}

/// Whether four bytes stand at a place.
pub open spec fn has_four(bytes: Seq<u8>, at: int, four: (u8, u8, u8, u8)) -> bool {
    &&& 0 <= at
    &&& at + 4 <= bytes.len()
    &&& bytes[at] == four.0
    &&& bytes[at + 1] == four.1
    &&& bytes[at + 2] == four.2
    &&& bytes[at + 3] == four.3
}

/// Whether the signature of a PNG file stands at a place.
pub open spec fn is_png(bytes: Seq<u8>, at: int) -> bool {
    has_four(bytes, at, (0x89, 0x50, 0x4e, 0x47)) && has_four(bytes, at + 4, (0x0d, 0x0a, 0x1a, 0x0a))
}

/// Whether the chunks from a place on have a palette in front of the pixels, and the palette is cut
/// off in the middle of a colour.
pub open spec fn palette_is_cut(bytes: Seq<u8>, at: int) -> bool
    decreases (if at < bytes.len() { bytes.len() - at } else { 0 }),
{
    if at < 0 || at + 8 > bytes.len() || has_four(bytes, at + 4, (0x49, 0x44, 0x41, 0x54)) {
        false
    } else if has_four(bytes, at + 4, (0x50, 0x4c, 0x54, 0x45)) {
        big_32(bytes, at) % 3 != 0
    } else {
        palette_is_cut(bytes, at + 12 + big_32(bytes, at))
    }
}

/// Whether a PNG file with numbers of colours begins at a place, and its palette is cut off in the
/// middle of a colour. The colour type is the tenth byte of the header.
pub open spec fn has_cut_palette(bytes: Seq<u8>, at: int) -> bool {
    &&& is_png(bytes, at)
    &&& at + 25 < bytes.len()
    &&& bytes[at + 25] == INDEXED
    &&& palette_is_cut(bytes, at + 8)
}

/// How many pictures the directory of an ICO file lists.
pub open spec fn entry_count(bytes: Seq<u8>) -> nat {
    little_16(bytes, 4)
}

/// Whether the bytes are an ICO file whose directory is whole and lists a picture.
pub open spec fn has_directory(bytes: Seq<u8>) -> bool {
    &&& has_four(bytes, 0, (0, 0, 1, 0))
    &&& bytes.len() >= 6
    &&& entry_count(bytes) > 0
    &&& 6 + 16 * entry_count(bytes) <= bytes.len()
}

/// A width or a height of a directory, where zero stands for 256.
pub open spec fn side(byte: u8) -> nat {
    if byte == 0 {
        256
    } else {
        byte as nat
    }
}

/// How good the picture of a directory entry is: the one with more bits for a pixel is better and,
/// of two that are equal in that, the one with more pixels.
pub open spec fn rank(bytes: Seq<u8>, entry: nat) -> nat {
    let at = 6 + 16 * entry as int;
    65537 * little_16(bytes, at + 6) + side(bytes[at]) * side(bytes[at + 1])
}

/// The best of the last entry and the first `n`: the last one, unless one of the others is better;
/// of those the first one that none is better than.
pub open spec fn best_entry(bytes: Seq<u8>, n: nat) -> nat
    decreases n,
{
    if n == 0 {
        (entry_count(bytes) - 1) as nat
    } else {
        let best = best_entry(bytes, (n - 1) as nat);
        if rank(bytes, (n - 1) as nat) > rank(bytes, best) {
            (n - 1) as nat
        } else {
            best
        }
    }
}

/// Where the picture of an ICO file begins that is decoded: that of the best entry.
pub open spec fn chosen_start(bytes: Seq<u8>) -> nat {
    little_32(bytes, 6 + 16 * best_entry(bytes, (entry_count(bytes) - 1) as nat) as int + 12)
}

/// Whether the picture of a file that would be decoded is a PNG with numbers of colours whose palette
/// is cut off in the middle of a colour.
pub open spec fn broken_palette(bytes: Seq<u8>) -> bool {
    if is_png(bytes, 0) {
        has_cut_palette(bytes, 0)
    } else {
        has_directory(bytes) && has_cut_palette(bytes, chosen_start(bytes) as int)
    }
}

fn read_little_16(bytes: &Vec<u8>, at: usize) -> (value: u32)
    requires
        at + 2 <= bytes.len(),
    ensures
        value == little_16(bytes@, at as int),
        value <= 0xffff,
{
    bytes[at] as u32 + 256 * bytes[at + 1] as u32
}

fn read_little_32(bytes: &Vec<u8>, at: usize) -> (value: u32)
    requires
        at + 4 <= bytes.len(),
    ensures
        value == little_32(bytes@, at as int),
{
    read_little_16(bytes, at) + 65536 * read_little_16(bytes, at + 2)
}

fn read_big_32(bytes: &Vec<u8>, at: usize) -> (value: u32)
    requires
        at + 4 <= bytes.len(),
    ensures
        value == big_32(bytes@, at as int),
{
    16777216 * bytes[at] as u32 + 65536 * bytes[at + 1] as u32 + 256 * bytes[at + 2] as u32
        + bytes[at + 3] as u32
}

fn reads_four(bytes: &Vec<u8>, at: usize, four: (u8, u8, u8, u8)) -> (found: bool)
    requires
        at <= bytes@.len(),
    ensures
        found == has_four(bytes@, at as int, four),
{
    bytes.len() - at >= 4 && bytes[at] == four.0 && bytes[at + 1] == four.1 && bytes[at + 2]
        == four.2 && bytes[at + 3] == four.3
}

fn starts_png(bytes: &Vec<u8>, at: usize) -> (found: bool)
    requires
        at <= bytes@.len(),
    ensures
        found == is_png(bytes@, at as int),
{
    let rest: usize = bytes.len() - at;
    rest >= 4 && reads_four(bytes, at, (0x89, 0x50, 0x4e, 0x47)) && reads_four(
        bytes,
        at + 4,
        (0x0d, 0x0a, 0x1a, 0x0a),
    )
}

fn finds_cut_palette(bytes: &Vec<u8>, from: usize) -> (cut: bool)
    requires
        from <= bytes@.len(),
    ensures
        cut == palette_is_cut(bytes@, from as int),
{
    let total: usize = bytes.len();
    let mut at: usize = from;
    while total - at >= 8
        invariant
            at <= total,
            total == bytes@.len(),
            palette_is_cut(bytes@, at as int) == palette_is_cut(bytes@, from as int),
        decreases total - at,
    {
        if reads_four(bytes, at + 4, (0x49, 0x44, 0x41, 0x54)) {
            return false;
        }
        let length: u32 = read_big_32(bytes, at);
        if reads_four(bytes, at + 4, (0x50, 0x4c, 0x54, 0x45)) {
            return length % 3 != 0;
        }
        let step: u64 = 12 + length as u64;
        if (total - at) as u64 <= step {
            assert(!palette_is_cut(bytes@, at + step));
            return false;
        }
        at = at + step as usize;
    }
    false
}

fn cut_palette_at(bytes: &Vec<u8>, at: usize) -> (cut: bool)
    requires
        at <= bytes@.len(),
    ensures
        cut == has_cut_palette(bytes@, at as int),
{
    starts_png(bytes, at) && bytes.len() - at > 25 && bytes[at + 25] == INDEXED && finds_cut_palette(
        bytes,
        at + 8,
    )
}

fn read_side(byte: u8) -> (length: u32)
    ensures
        length == side(byte),
        length <= 256,
{
    if byte == 0 {
        256
    } else {
        byte as u32
    }
}

fn read_rank(bytes: &Vec<u8>, entry: usize) -> (value: u64)
    requires
        has_directory(bytes@),
        entry < entry_count(bytes@),
    ensures
        value == rank(bytes@, entry as nat),
{
    let at: usize = 6 + 16 * entry;
    let width: u32 = read_side(bytes[at]);
    let height: u32 = read_side(bytes[at + 1]);
    assert(width * height <= 256 * 256) by (nonlinear_arith)
        requires
            0 <= width <= 256,
            0 <= height <= 256,
    ;
    65537 * read_little_16(bytes, at + 6) as u64 + (width * height) as u64
}

fn find_best_entry(bytes: &Vec<u8>) -> (best: usize)
    requires
        has_directory(bytes@),
    ensures
        best == best_entry(bytes@, (entry_count(bytes@) - 1) as nat),
        best < entry_count(bytes@),
{
    let count: usize = read_little_16(bytes, 4) as usize;
    let mut best: usize = count - 1;
    let mut i: usize = 0;
    while i < count - 1
        invariant
            has_directory(bytes@),
            count == entry_count(bytes@),
            count > 0,
            i <= count - 1,
            best < count,
            best == best_entry(bytes@, i as nat),
        decreases count - i,
    {
        if read_rank(bytes, i) > read_rank(bytes, best) {
            best = i;
        }
        i = i + 1;
    }
    best
}

fn reads_directory(bytes: &Vec<u8>) -> (found: bool)
    ensures
        found == has_directory(bytes@),
{
    if !reads_four(bytes, 0, (0, 0, 1, 0)) || bytes.len() < 6 {
        return false;
    }
    let count: usize = read_little_16(bytes, 4) as usize;
    count > 0 && 6 + 16 * count <= bytes.len()
}

/// Whether the picture of a file that would be decoded has a palette that is cut off in the middle of
/// a colour.
pub fn has_broken_palette(bytes: &Vec<u8>) -> (broken: bool)
    ensures
        broken == broken_palette(bytes@),
{
    if starts_png(bytes, 0) {
        return cut_palette_at(bytes, 0);
    }
    if !reads_directory(bytes) {
        return false;
    }
    let start: u32 = read_little_32(bytes, 6 + 16 * find_best_entry(bytes) + 12);
    (start as u64) < bytes.len() as u64 && cut_palette_at(bytes, start as usize)
}

} // verus!
