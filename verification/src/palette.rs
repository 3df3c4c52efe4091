//! Palette selection: a display name is hashed with MD5 and the value of the
//! first eight hex digits of the digest, taken modulo the table size, picks
//! one of ten fixed two-color gradients.

use vstd::prelude::*;

verus! {

/// An RGBA color with 8-bit channels; every color in this library is opaque.
#[derive(Clone, Copy, Debug, PartialEq, Eq, Structural)]
pub struct Color {
    pub red: u8,
    pub green: u8,
    pub blue: u8,
    pub alpha: u8,
}

/// An ordered pair of colors: the two ends of a background gradient.
#[derive(Clone, Copy, Debug, PartialEq, Eq, Structural)]
pub struct Palette {
    pub start: Color,
    pub end: Color,
}

/// An opaque color from 8-bit red, green and blue channels.
pub open spec fn rgb_spec(red: u8, green: u8, blue: u8) -> Color {
    Color { red, green, blue, alpha: 255 }
}

/// The fixed, ordered table of ten gradient palettes. Its order is
/// significant: it defines the index-to-palette mapping.
pub open spec fn palette_table() -> Seq<Palette> {
    seq![
        Palette { start: rgb_spec(0xFF, 0x6B, 0x6B), end: rgb_spec(0xFF, 0x8E, 0x53) },
        Palette { start: rgb_spec(0x4E, 0xCD, 0xC4), end: rgb_spec(0x44, 0xA0, 0x8D) },
        Palette { start: rgb_spec(0xA8, 0xE6, 0xCF), end: rgb_spec(0x3D, 0x84, 0xA8) },
        Palette { start: rgb_spec(0xFF, 0xD9, 0x3D), end: rgb_spec(0xFF, 0x6B, 0x6B) },
        Palette { start: rgb_spec(0x6C, 0x5C, 0xE7), end: rgb_spec(0xA2, 0x9B, 0xFE) },
        Palette { start: rgb_spec(0xFD, 0x79, 0xA8), end: rgb_spec(0xFD, 0xCB, 0x6E) },
        Palette { start: rgb_spec(0x74, 0xB9, 0xFF), end: rgb_spec(0x09, 0x84, 0xE3) },
        Palette { start: rgb_spec(0x55, 0xEF, 0xC4), end: rgb_spec(0x00, 0xB8, 0x94) },
        Palette { start: rgb_spec(0xFA, 0xB1, 0xA0), end: rgb_spec(0xE1, 0x70, 0x55) },
        Palette { start: rgb_spec(0xA2, 0x9B, 0xFE), end: rgb_spec(0x6C, 0x5C, 0xE7) },
    ]
}

/// The MD5 digest (16 bytes) of the UTF-8 encoding of a character sequence.
pub uninterp spec fn md5_of(s: Seq<char>) -> Seq<u8>;

/// Relies on md5::compute: returns the 16-byte MD5 digest of the input
/// bytes, a function of the input alone.
#[verifier::external_body]
fn md5_digest(key: &str) -> (r: Vec<u8>)
    ensures
        r@ == md5_of(key@),
        r@.len() == 16,
{
    md5::compute(key.as_bytes()).0.to_vec()
}

/// The value of the first eight hex digits of a digest's hexadecimal form.
/// Each digest byte prints as two hex digits in order, so this is the
/// big-endian value of the first four bytes.
pub open spec fn hex_prefix_value(d: Seq<u8>) -> int {
    d[0] * 0x1000000 + d[1] * 0x10000 + d[2] * 0x100 + d[3]
}

/// The palette index a key selects: the first eight hex digits of its MD5
/// digest, parsed as an integer, modulo the table size.
pub open spec fn palette_index(s: Seq<char>) -> int {
    hex_prefix_value(md5_of(s)) % 10
}

/// The palette at a given table index.
pub fn palette_at(index: usize) -> (p: Palette)
    requires
        index < 10,
    ensures
        p == palette_table()[index as int],
{
    let table: Vec<Palette> = make_table();
    table[index]
}

/// Builds the palette table as a vector whose view is `palette_table()`.
fn make_table() -> (table: Vec<Palette>)
    ensures
        table@ =~= palette_table(),
{
    let mut table: Vec<Palette> = Vec::new();
    table.push(Palette { start: rgb(0xFF, 0x6B, 0x6B), end: rgb(0xFF, 0x8E, 0x53) });
    table.push(Palette { start: rgb(0x4E, 0xCD, 0xC4), end: rgb(0x44, 0xA0, 0x8D) });
    table.push(Palette { start: rgb(0xA8, 0xE6, 0xCF), end: rgb(0x3D, 0x84, 0xA8) });
    table.push(Palette { start: rgb(0xFF, 0xD9, 0x3D), end: rgb(0xFF, 0x6B, 0x6B) });
    table.push(Palette { start: rgb(0x6C, 0x5C, 0xE7), end: rgb(0xA2, 0x9B, 0xFE) });
    table.push(Palette { start: rgb(0xFD, 0x79, 0xA8), end: rgb(0xFD, 0xCB, 0x6E) });
    table.push(Palette { start: rgb(0x74, 0xB9, 0xFF), end: rgb(0x09, 0x84, 0xE3) });
    table.push(Palette { start: rgb(0x55, 0xEF, 0xC4), end: rgb(0x00, 0xB8, 0x94) });
    table.push(Palette { start: rgb(0xFA, 0xB1, 0xA0), end: rgb(0xE1, 0x70, 0x55) });
    table.push(Palette { start: rgb(0xA2, 0x9B, 0xFE), end: rgb(0x6C, 0x5C, 0xE7) });
    table
}

/// An opaque color from 8-bit red, green and blue channels.
pub fn rgb(red: u8, green: u8, blue: u8) -> (c: Color)
    ensures
        c == rgb_spec(red, green, blue),
{
    Color { red, green, blue, alpha: 255 }
}

/// Selects the gradient palette for a key: the table entry at the key's
/// MD5-derived index. Identical key contents always select the same entry.
pub fn select_palette(key: &str) -> (p: Palette)
    ensures
        p == palette_table()[palette_index(key@)],
{
    let d = md5_digest(key);
    let value: u32 = (d[0] as u32) * 0x1000000 + (d[1] as u32) * 0x10000 + (d[2] as u32) * 0x100
        + (d[3] as u32);
    let index: usize = (value % 10) as usize;
    palette_at(index)
}

/// Palette selection is deterministic: equal key contents give equal
/// indices, and an index is always inside the ten-entry table.
pub proof fn lemma_select_palette_deterministic(s1: Seq<char>, s2: Seq<char>)
    requires
        s1 == s2,
    ensures
        palette_index(s1) == palette_index(s2),
        0 <= palette_index(s1) < 10,
{
}

} // verus!
