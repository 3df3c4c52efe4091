use avatar_gen::palette::palette_at;
use avatar_gen::palette::rgb;
use avatar_gen::palette::select_palette;
use avatar_gen::palette::Palette;

/// The palette index computed independently through the digest's printed
/// hex form: its first eight characters, parsed as an unsigned integer,
/// modulo ten.
fn hex_prefix_index(key: &str) -> usize {
    let digest = md5::compute(key.as_bytes());
    let hex = format!("{:x}", digest);
    let value = u32::from_str_radix(&hex[0..8], 16).unwrap();
    (value % 10) as usize
}

#[test]
fn selection_is_deterministic() {
    let first = select_palette("John Smith");
    let second = select_palette("John Smith");
    assert_eq!(first, second);
}

#[test]
fn selection_matches_hex_prefix_arithmetic_for_john_smith() {
    let expected = palette_at(hex_prefix_index("John Smith"));
    assert_eq!(select_palette("John Smith"), expected);
}

#[test]
fn selection_matches_hex_prefix_arithmetic_for_various_keys() {
    for key in ["", "a", "Jane Doe", "Álvaro", "名前 苗字", "?"] {
        let expected = palette_at(hex_prefix_index(key));
        assert_eq!(select_palette(key), expected, "key {:?}", key);
    }
}

#[test]
fn selection_always_lands_in_the_table() {
    let mut table: Vec<Palette> = Vec::new();
    for i in 0..10 {
        table.push(palette_at(i));
    }
    for key in ["", "x", "John Smith", "collision tolerant", "\u{1F600}"] {
        let chosen = select_palette(key);
        assert!(table.contains(&chosen), "key {:?}", key);
    }
}

#[test]
fn table_holds_the_fixed_colors_in_order() {
    assert_eq!(
        palette_at(0),
        Palette { start: rgb(0xFF, 0x6B, 0x6B), end: rgb(0xFF, 0x8E, 0x53) }
    );
    assert_eq!(
        palette_at(1),
        Palette { start: rgb(0x4E, 0xCD, 0xC4), end: rgb(0x44, 0xA0, 0x8D) }
    );
    assert_eq!(
        palette_at(2),
        Palette { start: rgb(0xA8, 0xE6, 0xCF), end: rgb(0x3D, 0x84, 0xA8) }
    );
    assert_eq!(
        palette_at(3),
        Palette { start: rgb(0xFF, 0xD9, 0x3D), end: rgb(0xFF, 0x6B, 0x6B) }
    );
    assert_eq!(
        palette_at(4),
        Palette { start: rgb(0x6C, 0x5C, 0xE7), end: rgb(0xA2, 0x9B, 0xFE) }
    );
    assert_eq!(
        palette_at(5),
        Palette { start: rgb(0xFD, 0x79, 0xA8), end: rgb(0xFD, 0xCB, 0x6E) }
    );
    assert_eq!(
        palette_at(6),
        Palette { start: rgb(0x74, 0xB9, 0xFF), end: rgb(0x09, 0x84, 0xE3) }
    );
    assert_eq!(
        palette_at(7),
        Palette { start: rgb(0x55, 0xEF, 0xC4), end: rgb(0x00, 0xB8, 0x94) }
    );
    assert_eq!(
        palette_at(8),
        Palette { start: rgb(0xFA, 0xB1, 0xA0), end: rgb(0xE1, 0x70, 0x55) }
    );
    assert_eq!(
        palette_at(9),
        Palette { start: rgb(0xA2, 0x9B, 0xFE), end: rgb(0x6C, 0x5C, 0xE7) }
    );
}

#[test]
fn every_color_is_opaque() {
    for i in 0..10 {
        let palette = palette_at(i);
        assert_eq!(palette.start.alpha, 255);
        assert_eq!(palette.end.alpha, 255);
    }
}
