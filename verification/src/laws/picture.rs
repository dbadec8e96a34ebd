//! Laws of picture files.
use vstd::prelude::*;
use crate::picture::{
    best_entry, big_32, entry_count, has_broken_palette, has_cut_palette, has_four, palette_is_cut,
    rank, side,
};

verus! {

/// Whether a file has these bytes at a place.
pub open spec fn has_at(bytes: Seq<u8>, at: int, part: Seq<u8>) -> bool {
    &&& 0 <= at
    &&& at + part.len() <= bytes.len()
    &&& forall|i: int| 0 <= i < part.len() ==> bytes[at + i] == part[i]
}

/// What a PNG file begins with.
pub open spec fn signature() -> Seq<u8> {
    seq![0x89u8, 0x50, 0x4e, 0x47, 0x0d, 0x0a, 0x1a, 0x0a]
}

/// The length of the chunk at a place: four bytes, the high one first.
pub open spec fn chunk_length(bytes: Seq<u8>, at: int) -> int {
    ((bytes[at] * 256 + bytes[at + 1]) * 256 + bytes[at + 2]) * 256 + bytes[at + 3]
}

/// Whether the chunk at a place has a name.
pub open spec fn is_named(bytes: Seq<u8>, at: int, name: Seq<u8>) -> bool {
    has_at(bytes, at + 4, name)
}

/// Whether the chunks at some places follow each other from a place on: no palette and no pixels, but
/// the last one is a palette whose length is not that of whole colours.
pub open spec fn leads_to_a_cut_palette(bytes: Seq<u8>, from: int, places: Seq<int>) -> bool {
    let pixels = seq![0x49u8, 0x44, 0x41, 0x54];
    let palette = seq![0x50u8, 0x4c, 0x54, 0x45];
    &&& places.len() > 0
    &&& places[0] == from
    &&& forall|i: int|
        0 <= i < places.len() - 1 ==> {
            &&& 0 <= #[trigger] places[i]
            &&& places[i] + 8 <= bytes.len()
            &&& !is_named(bytes, places[i], pixels)
            &&& !is_named(bytes, places[i], palette)
            &&& places[i + 1] == places[i] + 12 + chunk_length(bytes, places[i])
        }
    &&& is_named(bytes, places.last(), palette)
    &&& 0 <= places.last()
    &&& chunk_length(bytes, places.last()) % 3 != 0
}

/// Whether the chunks from a place on come to a palette that is cut off before they come to pixels.
pub open spec fn cut_palette_follows(bytes: Seq<u8>, from: int) -> bool {
    exists|places: Seq<int>| leads_to_a_cut_palette(bytes, from, places)
}

/// Whether a PNG file at a place has numbers of colours for pixels and a cut palette in front of them.
pub open spec fn is_broken_at(bytes: Seq<u8>, at: int) -> bool {
    &&& has_at(bytes, at, signature())
    &&& at + 25 < bytes.len()
    &&& bytes[at + 25] == 3
    &&& cut_palette_follows(bytes, at + 8)
}

proof fn lemma_four(bytes: Seq<u8>, at: int, four: (u8, u8, u8, u8))
    ensures
        has_four(bytes, at, four) <==> has_at(bytes, at, seq![four.0, four.1, four.2, four.3]),
{
    let part = seq![four.0, four.1, four.2, four.3];
    if has_at(bytes, at, part) {
        assert(bytes[at + 0] == part[0]);
        assert(bytes[at + 1] == part[1]);
        assert(bytes[at + 2] == part[2]);
        assert(bytes[at + 3] == part[3]);
    }
}

proof fn lemma_walk(bytes: Seq<u8>, at: int)
    ensures
        palette_is_cut(bytes, at) <==> cut_palette_follows(bytes, at),
    decreases (if at < bytes.len() { bytes.len() - at } else { 0 }),
{
    let pixels = seq![0x49u8, 0x44, 0x41, 0x54];
    let palette = seq![0x50u8, 0x4c, 0x54, 0x45];
    lemma_four(bytes, at + 4, (0x49, 0x44, 0x41, 0x54));
    lemma_four(bytes, at + 4, (0x50, 0x4c, 0x54, 0x45));
    if is_named(bytes, at, pixels) && is_named(bytes, at, palette) {
        assert(bytes[at + 4 + 0] == pixels[0] && bytes[at + 4 + 0] == palette[0]);
    }
    let next = at + 12 + chunk_length(bytes, at);
    if at < 0 || at + 8 > bytes.len() || is_named(bytes, at, pixels) {
        if exists|places: Seq<int>| leads_to_a_cut_palette(bytes, at, places) {
            let places = choose|places: Seq<int>| leads_to_a_cut_palette(bytes, at, places);
            if places.len() > 1 {
                assert(places[0] == at);
            } else {
                assert(places.last() == at);
            }
        }
    } else if is_named(bytes, at, palette) {
        if palette_is_cut(bytes, at) {
            assert(leads_to_a_cut_palette(bytes, at, seq![at]));
        }
        if exists|places: Seq<int>| leads_to_a_cut_palette(bytes, at, places) {
            let places = choose|places: Seq<int>| leads_to_a_cut_palette(bytes, at, places);
            if places.len() > 1 {
                assert(places[0] == at);
            } else {
                assert(places.last() == at);
            }
        }
    } else {
        assert(chunk_length(bytes, at) == big_32(bytes, at));
        lemma_walk(bytes, next);
        if palette_is_cut(bytes, next) {
            let rest = choose|places: Seq<int>| leads_to_a_cut_palette(bytes, next, places);
            let places = seq![at] + rest;
            assert forall|i: int| 0 <= i < places.len() - 1 implies {
                &&& 0 <= #[trigger] places[i]
                &&& places[i] + 8 <= bytes.len()
                &&& !is_named(bytes, places[i], pixels)
                &&& !is_named(bytes, places[i], palette)
                &&& places[i + 1] == places[i] + 12 + chunk_length(bytes, places[i])
            } by {
                if i > 0 {
                    assert(places[i] == rest[i - 1]);
                    assert(places[i + 1] == rest[i]);
                }
            }
            assert(places.last() == rest.last());
            assert(leads_to_a_cut_palette(bytes, at, places));
        }
        if exists|places: Seq<int>| leads_to_a_cut_palette(bytes, at, places) {
            let places = choose|places: Seq<int>| leads_to_a_cut_palette(bytes, at, places);
            if places.len() > 1 {
                assert(places[0] == at);
                let rest = places.skip(1);
                assert forall|i: int| 0 <= i < rest.len() - 1 implies {
                    &&& 0 <= #[trigger] rest[i]
                    &&& rest[i] + 8 <= bytes.len()
                    &&& !is_named(bytes, rest[i], pixels)
                    &&& !is_named(bytes, rest[i], palette)
                    &&& rest[i + 1] == rest[i] + 12 + chunk_length(bytes, rest[i])
                } by {
                    assert(rest[i] == places[i + 1]);
                }
                assert(rest.last() == places.last());
                assert(rest[0] == places[1]);
                assert(leads_to_a_cut_palette(bytes, next, rest));
            } else {
                assert(places.last() == at);
            }
        }
    }
}

proof fn lemma_broken_at(bytes: Seq<u8>, at: int)
    ensures
        has_cut_palette(bytes, at) <==> is_broken_at(bytes, at),
        crate::picture::is_png(bytes, at) <==> has_at(bytes, at, signature()),
{
    lemma_walk(bytes, at + 8);
    let mark = signature();
    if has_at(bytes, at, mark) {
        assert(bytes[at + 0] == mark[0]);
        assert(bytes[at + 1] == mark[1]);
        assert(bytes[at + 2] == mark[2]);
        assert(bytes[at + 3] == mark[3]);
        assert(bytes[at + 4] == mark[4]);
        assert(bytes[at + 5] == mark[5]);
        assert(bytes[at + 6] == mark[6]);
        assert(bytes[at + 7] == mark[7]);
    }
    if crate::picture::is_png(bytes, at) {
        assert forall|i: int| 0 <= i < mark.len() implies bytes[at + i] == mark[i] by {
            assert(i == 0 || i == 1 || i == 2 || i == 3 || i == 4 || i == 5 || i == 6 || i == 7);
        }
    }
}

/// A PNG file is refused exactly when its pixels are numbers of colours and the palette in front of
/// them is cut off in the middle of a colour.
pub proof fn law_cut_palettes_are_found(bytes: Vec<u8>, broken: bool)
    requires
        has_at(bytes@, 0, signature()),
        call_ensures(has_broken_palette, (&bytes,), broken),
    ensures
        broken <==> is_broken_at(bytes@, 0),
{
    lemma_broken_at(bytes@, 0);
}

/// How many pictures an ICO file lists.
pub open spec fn listed(bytes: Seq<u8>) -> int {
    bytes[4] + 256 * bytes[5]
}

/// Whether the bytes begin as an ICO file that lists pictures and holds the whole list.
pub open spec fn is_list(bytes: Seq<u8>) -> bool {
    &&& has_at(bytes, 0, seq![0u8, 0, 1, 0])
    &&& bytes.len() >= 6
    &&& listed(bytes) > 0
    &&& 6 + 16 * listed(bytes) <= bytes.len()
}

/// The bits for a pixel of a listed picture.
pub open spec fn depth(bytes: Seq<u8>, entry: int) -> int {
    bytes[12 + 16 * entry] + 256 * bytes[13 + 16 * entry]
}

/// The length of a side, where zero stands for 256.
pub open spec fn length_of(byte: u8) -> int {
    if byte == 0 {
        256
    } else {
        byte as int
    }
}

/// The pixels of a listed picture.
pub open spec fn pixels_of(bytes: Seq<u8>, entry: int) -> int {
    length_of(bytes[6 + 16 * entry]) * length_of(bytes[7 + 16 * entry])
}

/// Whether a listed picture is better than another: more bits for a pixel or, of the same, more pixels.
pub open spec fn is_better(bytes: Seq<u8>, entry: int, other: int) -> bool {
    ||| depth(bytes, entry) > depth(bytes, other)
    ||| depth(bytes, entry) == depth(bytes, other) && pixels_of(bytes, entry) > pixels_of(
        bytes,
        other,
    )
}

/// Whether a listed picture is the one that is decoded: none is better, and of equals the last of the
/// list comes first, and otherwise the earliest.
pub open spec fn is_decoded(bytes: Seq<u8>, entry: int) -> bool {
    let last = listed(bytes) - 1;
    &&& 0 <= entry <= last
    &&& forall|other: int| 0 <= other <= last ==> !#[trigger] is_better(bytes, other, entry)
    &&& entry != last ==> is_better(bytes, entry, last)
    &&& entry != last ==> forall|other: int|
        0 <= other < entry ==> #[trigger] is_better(bytes, entry, other)
}

/// Where a listed picture begins: four bytes, the low one first.
pub open spec fn start_of(bytes: Seq<u8>, entry: int) -> int {
    let at = 18 + 16 * entry;
    bytes[at] + 256 * (bytes[at + 1] + 256 * (bytes[at + 2] + 256 * bytes[at + 3]))
}

proof fn lemma_rank(bytes: Seq<u8>, entry: nat, other: nat)
    ensures
        is_better(bytes, entry as int, other as int) <==> rank(bytes, entry) > rank(bytes, other),
{
    let a = pixels_of(bytes, entry as int);
    let b = pixels_of(bytes, other as int);
    lemma_pixels(bytes[6 + 16 * entry as int], bytes[7 + 16 * entry as int]);
    lemma_pixels(bytes[6 + 16 * other as int], bytes[7 + 16 * other as int]);
    assert(rank(bytes, entry) == 65537 * depth(bytes, entry as int) + a);
    assert(rank(bytes, other) == 65537 * depth(bytes, other as int) + b);
}

proof fn lemma_pixels(width: u8, height: u8)
    ensures
        0 < length_of(width) * length_of(height) <= 65536,
        length_of(width) * length_of(height) == side(width) * side(height),
{
    let w = length_of(width);
    let h = length_of(height);
    assert(0 < w * h <= 65536) by (nonlinear_arith)
        requires
            0 < w <= 256,
            0 < h <= 256,
    ;
}

proof fn lemma_best(bytes: Seq<u8>, n: nat)
    requires
        entry_count(bytes) > 0,
        n < entry_count(bytes),
    ensures
        ({
            let last = (entry_count(bytes) - 1) as nat;
            let best = best_entry(bytes, n);
            &&& best == last || best < n
            &&& rank(bytes, last) <= rank(bytes, best)
            &&& best != last ==> rank(bytes, last) < rank(bytes, best)
            &&& forall|j: nat| j < n ==> #[trigger] rank(bytes, j) <= rank(bytes, best)
            &&& best != last ==> forall|j: nat|
                j < best ==> #[trigger] rank(bytes, j) < rank(bytes, best)
        }),
    decreases n,
{
    if n > 0 {
        lemma_best(bytes, (n - 1) as nat);
    }
}

/// Of an ICO file the picture that is decoded decides, and no other one.
pub proof fn law_decoded_picture_decides(bytes: Vec<u8>, entry: int, broken: bool)
    requires
        !has_at(bytes@, 0, signature()),
        is_list(bytes@),
        is_decoded(bytes@, entry),
        call_ensures(has_broken_palette, (&bytes,), broken),
    ensures
        broken <==> is_broken_at(bytes@, start_of(bytes@, entry)),
{
    let s = bytes@;
    lemma_broken_at(s, 0);
    lemma_four(s, 0, (0, 0, 1, 0));
    let last = (entry_count(s) - 1) as nat;
    let best = best_entry(s, last);
    let chosen = entry as nat;
    lemma_best(s, last);
    lemma_rank(s, best, chosen);
    lemma_rank(s, chosen, last);
    assert(!is_better(s, best as int, entry));
    if chosen != last && best != last {
        if best < chosen {
            assert(is_better(s, entry, best as int));
            lemma_rank(s, chosen, best);
            assert(rank(s, chosen) <= rank(s, best));
        }
        if chosen < best {
            assert(rank(s, chosen) < rank(s, best));
        }
    }
    assert(chosen == best);
    lemma_broken_at(s, start_of(s, entry));
}

/// A file that is neither a PNG file nor an ICO file with a whole list is never refused for a palette.
pub proof fn law_other_files_have_no_palette(bytes: Vec<u8>, broken: bool)
    requires
        !has_at(bytes@, 0, signature()),
        !is_list(bytes@),
        call_ensures(has_broken_palette, (&bytes,), broken),
    ensures
        !broken,
{
    lemma_broken_at(bytes@, 0);
    lemma_four(bytes@, 0, (0, 0, 1, 0));
}

} // verus!
