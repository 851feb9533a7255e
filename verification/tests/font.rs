use infinitegfx_core::font::{
    default_font, font_char, font_upload_bytes, pack_font, packed_font, FontUploader,
    FONT_BUFFER_SIZE, FONT_GLYPHS, FONT_PICTURES, PACKED_FONT_WORDS,
};
use infinitegfx_core::text::{char_id, SPACE_ID};

const EXPECTED: [[u32; 2]; 27] = [
    [0x7e66663c, 0x00666666],
    [0x3e66663e, 0x003e6666],
    [0x0606663c, 0x003c6606],
    [0x6666663e, 0x003e6666],
    [0x3e06067e, 0x007e0606],
    [0x3e06067e, 0x00060606],
    [0x7606663c, 0x003c6666],
    [0x7e666666, 0x00666666],
    [0x1818183c, 0x003c1818],
    [0x6060607c, 0x003c6660],
    [0x0e1e3666, 0x0066361e],
    [0x06060606, 0x007e0606],
    [0xfefeeee6, 0x00c6c6d6],
    [0xd6cecec6, 0x00c6e6e6],
    [0x6666663c, 0x003c6666],
    [0x3e66663e, 0x00060606],
    [0x6666663c, 0xc0bc6676],
    [0x3e66663e, 0x0066361e],
    [0x180c663c, 0x003c6630],
    [0x1818187e, 0x00181818],
    [0x66666666, 0x003c6666],
    [0x66666666, 0x0018183c],
    [0xd6c6c6c6, 0x006cfefe],
    [0x183c6666, 0x0066663c],
    [0x183c6666, 0x00181818],
    [0x1830607e, 0x007e060c],
    [0x00000000, 0x00000000],
];

fn pixel(glyph: [u32; 2], row: usize, col: usize) -> bool {
    let k = row * 8 + col;
    if k < 32 {
        (glyph[0] >> k) & 1 == 1
    } else {
        (glyph[1] >> (k - 32)) & 1 == 1
    }
}

#[test]
fn default_font_matches_pictures() {
    let font = default_font();
    assert_eq!(font.len(), FONT_GLYPHS);
    for (i, picture) in FONT_PICTURES.iter().enumerate() {
        assert_eq!(font_char(&picture[..]), font[i], "glyph {}", i);
        assert_eq!(font[i], EXPECTED[i], "glyph {}", i);
    }
}

#[test]
fn font_char_sets_pixels_of_non_spaces() {
    let glyph = font_char(&FONT_PICTURES[0][..]);
    for (row, line) in FONT_PICTURES[0].iter().enumerate() {
        for (col, byte) in line.bytes().enumerate() {
            assert_eq!(pixel(glyph, row, col), byte != b' ');
        }
    }
    assert_eq!(glyph, [0x7e66663c, 0x00666666]);
}

#[test]
fn font_char_short_and_wide_pictures() {
    assert_eq!(font_char(&[]), [0, 0]);
    assert_eq!(font_char(&["X"]), [1, 0]);
    assert_eq!(font_char(&["XXXXXXXXXXXX"]), [0xff, 0]);
    assert_eq!(font_char(&["", "", "", "", "X"]), [0, 1]);
    assert_eq!(font_char(&["", "", "", "", "", "", "", "       X"]), [0, 0x8000_0000]);
    assert_eq!(font_char(&["x.#"]), [0b111, 0]);
}

#[test]
fn space_glyph_is_blank_and_letters_index_font() {
    let font = default_font();
    assert_eq!(font[SPACE_ID as usize], [0, 0]);
    assert_eq!(font[char_id('Q') as usize], font_char(&FONT_PICTURES[16][..]));
}

#[test]
fn packed_font_lays_glyphs_in_pairs() {
    let words = packed_font();
    assert_eq!(words.len(), PACKED_FONT_WORDS);
    for i in 0..FONT_GLYPHS {
        assert_eq!(words[2 * i], EXPECTED[i][0]);
        assert_eq!(words[2 * i + 1], EXPECTED[i][1]);
    }
    assert_eq!(pack_font(&EXPECTED[..]), words);
    assert_eq!(words[54], 0);
    assert_eq!(words[55], 0);
}

#[test]
fn font_upload_bytes_are_native_words() {
    let bytes = font_upload_bytes();
    assert_eq!(bytes.len() as u64, FONT_BUFFER_SIZE);
    let words = packed_font();
    for (i, w) in words.iter().enumerate() {
        assert_eq!(&bytes[4 * i..4 * i + 4], &w.to_ne_bytes());
    }
    assert_eq!(&bytes[0..4], &0x7e66663cu32.to_ne_bytes());
}

#[test]
fn font_uploads_once() {
    let mut uploader = FontUploader::new();
    assert!(uploader.on_update(false).is_none());
    assert!(!uploader.loaded);
    let first = uploader.on_update(true);
    assert_eq!(first.map(|b| b.len()), Some(224));
    assert!(uploader.loaded);
    assert!(uploader.on_update(true).is_none());
    assert!(uploader.on_update(false).is_none());
}
