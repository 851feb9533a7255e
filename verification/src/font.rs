use vstd::prelude::*;
use vstd::string::StringSliceAdditionalSpecFns;
use vstd::utf8::{is_ascii_chars, is_ascii_chars_encode_utf8};

verus! {

/// Number of glyphs in the default font: the letters A to Z, then the space.
pub const FONT_GLYPHS: usize = 27;

/// A glyph is an 8x8 bitmap held in two words: pixel (`row`, `col`) is bit
/// `row * 8 + col` of the pair, bits 0..32 in the first word and 32..64 in
/// the second.
///
/// The pictures of the default font, glyph `i` for glyph id `i`: eight rows
/// of eight columns, a space for a blank pixel and anything else for a set
/// one.
pub const FONT_PICTURES: [[&'static str; 8]; 27] = [
    // A
    [
        "  XXXX  ",
        " XX  XX ",
        " XX  XX ",
        " XXXXXX ",
        " XX  XX ",
        " XX  XX ",
        " XX  XX ",
        "        ",
    ],
    // B
    [
        " XXXXX  ",
        " XX  XX ",
        " XX  XX ",
        " XXXXX  ",
        " XX  XX ",
        " XX  XX ",
        " XXXXX  ",
        "        ",
    ],
    // C
    [
        "  XXXX  ",
        " XX  XX ",
        " XX     ",
        " XX     ",
        " XX     ",
        " XX  XX ",
        "  XXXX  ",
        "        ",
    ],
    // D
    [
        " XXXXX  ",
        " XX  XX ",
        " XX  XX ",
        " XX  XX ",
        " XX  XX ",
        " XX  XX ",
        " XXXXX  ",
        "        ",
    ],
    // E
    [
        " XXXXXX ",
        " XX     ",
        " XX     ",
        " XXXXX  ",
        " XX     ",
        " XX     ",
        " XXXXXX ",
        "        ",
    ],
    // F
    [
        " XXXXXX ",
        " XX     ",
        " XX     ",
        " XXXXX  ",
        " XX     ",
        " XX     ",
        " XX     ",
        "        ",
    ],
    // G
    [
        "  XXXX  ",
        " XX  XX ",
        " XX     ",
        " XX XXX ",
        " XX  XX ",
        " XX  XX ",
        "  XXXX  ",
        "        ",
    ],
    // H
    [
        " XX  XX ",
        " XX  XX ",
        " XX  XX ",
        " XXXXXX ",
        " XX  XX ",
        " XX  XX ",
        " XX  XX ",
        "        ",
    ],
    // I
    [
        "  XXXX  ",
        "   XX   ",
        "   XX   ",
        "   XX   ",
        "   XX   ",
        "   XX   ",
        "  XXXX  ",
        "        ",
    ],
    // J
    [
        "  XXXXX ",
        "     XX ",
        "     XX ",
        "     XX ",
        "     XX ",
        " XX  XX ",
        "  XXXX  ",
        "        ",
    ],
    // K
    [
        " XX  XX ",
        " XX XX  ",
        " XXXX   ",
        " XXX    ",
        " XXXX   ",
        " XX XX  ",
        " XX  XX ",
        "        ",
    ],
    // L
    [
        " XX     ",
        " XX     ",
        " XX     ",
        " XX     ",
        " XX     ",
        " XX     ",
        " XXXXXX ",
        "        ",
    ],
    // M
    [
        " XX  XXX",
        " XXX XXX",
        " XXXXXXX",
        " XXXXXXX",
        " XX X XX",
        " XX   XX",
        " XX   XX",
        "        ",
    ],
    // N
    [
        " XX   XX",
        " XXX  XX",
        " XXX  XX",
        " XX X XX",
        " XX  XXX",
        " XX  XXX",
        " XX   XX",
        "        ",
    ],
    // O
    [
        "  XXXX  ",
        " XX  XX ",
        " XX  XX ",
        " XX  XX ",
        " XX  XX ",
        " XX  XX ",
        "  XXXX  ",
        "        ",
    ],
    // P
    [
        " XXXXX  ",
        " XX  XX ",
        " XX  XX ",
        " XXXXX  ",
        " XX     ",
        " XX     ",
        " XX     ",
        "        ",
    ],
    // Q
    [
        "  XXXX  ",
        " XX  XX ",
        " XX  XX ",
        " XX  XX ",
        " XX XXX ",
        " XX  XX ",
        "  XXXX X",
        "      XX",
    ],
    // R
    [
        " XXXXX  ",
        " XX  XX ",
        " XX  XX ",
        " XXXXX  ",
        " XXXX   ",
        " XX XX  ",
        " XX  XX ",
        "        ",
    ],
    // S
    [
        "  XXXX  ",
        " XX  XX ",
        "  XX    ",
        "   XX   ",
        "    XX  ",
        " XX  XX ",
        "  XXXX  ",
        "        ",
    ],
    // T
    [
        " XXXXXX ",
        "   XX   ",
        "   XX   ",
        "   XX   ",
        "   XX   ",
        "   XX   ",
        "   XX   ",
        "        ",
    ],
    // U
    [
        " XX  XX ",
        " XX  XX ",
        " XX  XX ",
        " XX  XX ",
        " XX  XX ",
        " XX  XX ",
        "  XXXX  ",
        "        ",
    ],
    // V
    [
        " XX  XX ",
        " XX  XX ",
        " XX  XX ",
        " XX  XX ",
        "  XXXX  ",
        "   XX   ",
        "   XX   ",
        "        ",
    ],
    // W
    [
        " XX   XX",
        " XX   XX",
        " XX   XX",
        " XX X XX",
        " XXXXXXX",
        " XXXXXXX",
        "  XX XX ",
        "        ",
    ],
    // X
    [
        " XX  XX ",
        " XX  XX ",
        "  XXXX  ",
        "   XX   ",
        "  XXXX  ",
        " XX  XX ",
        " XX  XX ",
        "        ",
    ],
    // Y
    [
        " XX  XX ",
        " XX  XX ",
        "  XXXX  ",
        "   XX   ",
        "   XX   ",
        "   XX   ",
        "   XX   ",
        "        ",
    ],
    // Z
    [
        " XXXXXX ",
        "     XX ",
        "    XX  ",
        "   XX   ",
        "  XX    ",
        " XX     ",
        " XXXXXX ",
        "        ",
    ],
    // space
    [
        "        ",
        "        ",
        "        ",
        "        ",
        "        ",
        "        ",
        "        ",
        "        ",
    ],
];

/// Whether bit `k` (0 <= k < 32) of `x` is set.
pub open spec fn bit_set(x: u32, k: int) -> bool {
    (x >> (k as u32)) & 1u32 == 1u32
}

/// Whether the picture `rows` asks for bit `k` of its glyph: row `k / 8`
/// exists and holds, at column `k % 8`, a byte other than a space.
pub open spec fn picture_bit(rows: Seq<&str>, k: int) -> bool {
    let r = k / 8;
    let c = k % 8;
    &&& 0 <= r < rows.len()
    &&& c < rows[r].spec_bytes().len()
    &&& rows[r].spec_bytes()[c] != 32u8
}

proof fn lemma_set_bit(x: u32, b: u32, k: u32)
    requires
        b < 32,
        k < 32,
    ensures
        bit_set(x | (1u32 << b), k as int) == (bit_set(x, k as int) || k == b),
{
    assert((((x | (1u32 << b)) >> k) & 1u32 == 1u32) == ((((x >> k) & 1u32) == 1u32) || k == b))
        by (bit_vector)
        requires
            b < 32,
            k < 32,
    ;
}

proof fn lemma_zero_bits(k: u32)
    requires
        k < 32,
    ensures
        !bit_set(0u32, k as int),
{
    assert(((0u32 >> k) & 1u32) != 1u32) by (bit_vector);
}

/// Packs a picture of at most eight rows into a glyph: a pixel is set where
/// its row holds, within its first eight bytes, a byte other than a space.
pub fn font_char(rows: &[&str]) -> (glyph: [u32; 2])
    requires
        rows@.len() <= 8,
    ensures
        forall|k: int| 0 <= k < 32 ==> #[trigger] bit_set(glyph[0], k) == picture_bit(rows@, k),
        forall|k: int| 0 <= k < 32 ==> #[trigger] bit_set(glyph[1], k) == picture_bit(rows@, k + 32),
{
    let mut b0: u32 = 0;
    let mut b1: u32 = 0;
    let mut row: usize = 0;
    proof {
        assert forall|k: int| 0 <= k < 32 implies !#[trigger] bit_set(0u32, k) by {
            lemma_zero_bits(k as u32);
        }
    }
    while row < rows.len()
        invariant
            rows@.len() <= 8,
            row <= rows@.len(),
            forall|k: int| 0 <= k < 32 ==> #[trigger] bit_set(b0, k) == (k < row * 8 && picture_bit(rows@, k)),
            forall|k: int| 0 <= k < 32 ==> #[trigger] bit_set(b1, k) == (k + 32 < row * 8 && picture_bit(rows@, k + 32)),
        decreases rows@.len() - row,
    {
        let bytes = rows[row].as_bytes();
        let mut col: usize = 0;
        while col < 8 && col < bytes.len()
            invariant
                rows@.len() <= 8,
                row < rows@.len(),
                bytes@ == rows@[row as int].spec_bytes(),
                col <= 8,
                forall|k: int| 0 <= k < 32 ==> #[trigger] bit_set(b0, k) == (k < row * 8 + col && picture_bit(rows@, k)),
                forall|k: int| 0 <= k < 32 ==> #[trigger] bit_set(b1, k) == (k + 32 < row * 8 + col && picture_bit(rows@, k + 32)),
            decreases 8 - col,
        {
            let bit: usize = col + row * 8;
            if bytes[col] != 32u8 {
                if bit < 32 {
                    let old_b0 = b0;
                    b0 = b0 | (1u32 << (bit as u32));
                    proof {
                        assert forall|k: int| 0 <= k < 32 implies #[trigger] bit_set(b0, k) == (k < row * 8 + col + 1 && picture_bit(rows@, k)) by {
                            lemma_set_bit(old_b0, bit as u32, k as u32);
                        }
                    }
                } else {
                    let old_b1 = b1;
                    b1 = b1 | (1u32 << ((bit - 32) as u32));
                    proof {
                        assert forall|k: int| 0 <= k < 32 implies #[trigger] bit_set(b1, k) == (k + 32 < row * 8 + col + 1 && picture_bit(rows@, k + 32)) by {
                            lemma_set_bit(old_b1, (bit - 32) as u32, k as u32);
                        }
                    }
                }
            }
            col = col + 1;
        }
        row = row + 1;
    }
    [b0, b1]
}


/// The glyphs of the default font: glyph `i` is `font_char`'s packing of
/// picture `i`.
pub fn default_font() -> (font: Vec<[u32; 2]>)
    ensures
        font@.len() == FONT_GLYPHS,
        forall|i: int, k: int| 0 <= i < FONT_GLYPHS && 0 <= k < 32 ==> #[trigger] bit_set(font@[i][0], k)
            == picture_bit(FONT_PICTURES[i]@, k),
        forall|i: int, k: int| 0 <= i < FONT_GLYPHS && 0 <= k < 32 ==> #[trigger] bit_set(font@[i][1], k)
            == picture_bit(FONT_PICTURES[i]@, k + 32),
{
    let mut font: Vec<[u32; 2]> = Vec::new();
    let mut i: usize = 0;
    while i < FONT_GLYPHS
        invariant
            i <= FONT_GLYPHS,
            font@.len() == i,
            forall|g: int, k: int| 0 <= g < i && 0 <= k < 32 ==> #[trigger] bit_set(font@[g][0], k)
                == picture_bit(FONT_PICTURES[g]@, k),
            forall|g: int, k: int| 0 <= g < i && 0 <= k < 32 ==> #[trigger] bit_set(font@[g][1], k)
                == picture_bit(FONT_PICTURES[g]@, k + 32),
        decreases FONT_GLYPHS - i,
    {
        let picture = FONT_PICTURES[i];
        let glyph = font_char(picture.as_slice());
        font.push(glyph);
        i = i + 1;
    }
    font
}

/// The picture of the space glyph is blank, so the space draws nothing: by
/// `default_font`'s contract none of its glyph's bits is set.
pub proof fn lemma_space_glyph_blank()
    ensures
        forall|k: int| 0 <= k < 64 ==> !#[trigger] picture_bit(FONT_PICTURES[crate::text::SPACE_ID as int]@, k),
{
    let row: &str = "        ";
    reveal_strlit("        ");
    assert(is_ascii_chars(row@));
    is_ascii_chars_encode_utf8(row@);
    assert forall|c: int| 0 <= c < 8 implies #[trigger] row.spec_bytes()[c] == 32u8 by {
        assert(row@[c] == ' ');
    }
    let pic = FONT_PICTURES[crate::text::SPACE_ID as int]@;
    assert forall|r: int| 0 <= r < 8 implies #[trigger] pic[r] == row by {
    }
    assert forall|k: int| 0 <= k < 64 implies !#[trigger] picture_bit(pic, k) by {
        let r = k / 8;
        let c = k % 8;
        assert(pic[r] == row);
    }
}

/// Words in the font buffer the text shader reads: two per glyph, padded.
pub const PACKED_FONT_WORDS: usize = 56;

/// Size in bytes of the font buffer the text shader reads.
pub const FONT_BUFFER_SIZE: u64 = 224;

/// Whether bit `k` of word `j` of the font buffer is set: word `2 * i + w`
/// holds word `w` of the packing of picture `i`; the words after the glyphs
/// are zero.
pub open spec fn font_word_bit(j: int, k: int) -> bool {
    j < 2 * FONT_GLYPHS && picture_bit(FONT_PICTURES[j / 2]@, k + 32 * (j % 2))
}

/// `words` is the content of the font buffer for the default font.
pub open spec fn is_packed_font(words: Seq<u32>) -> bool {
    &&& words.len() == PACKED_FONT_WORDS
    &&& forall|j: int, k: int| 0 <= j < PACKED_FONT_WORDS && 0 <= k < 32 ==> #[trigger] bit_set(words[j], k)
        == font_word_bit(j, k)
    &&& forall|j: int| 2 * FONT_GLYPHS <= j < PACKED_FONT_WORDS ==> #[trigger] words[j] == 0
}

/// Lays out glyphs for upload: glyph `i` in words `2 * i` and `2 * i + 1`,
/// the words after the last glyph zero.
pub fn pack_font(font: &[[u32; 2]]) -> (words: Vec<u32>)
    requires
        font@.len() == FONT_GLYPHS,
    ensures
        words@.len() == PACKED_FONT_WORDS,
        forall|i: int| 0 <= i < FONT_GLYPHS ==> #[trigger] words@[2 * i] == font@[i][0]
            && words@[2 * i + 1] == font@[i][1],
        forall|j: int| 2 * FONT_GLYPHS <= j < PACKED_FONT_WORDS ==> #[trigger] words@[j] == 0,
{
    let mut words: Vec<u32> = Vec::new();
    let mut i: usize = 0;
    while i < FONT_GLYPHS
        invariant
            i <= FONT_GLYPHS,
            font@.len() == FONT_GLYPHS,
            words@.len() == 2 * i,
            forall|g: int| 0 <= g < i ==> #[trigger] words@[2 * g] == font@[g][0]
                && words@[2 * g + 1] == font@[g][1],
        decreases FONT_GLYPHS - i,
    {
        let glyph = font[i];
        let ghost before = words@;
        words.push(glyph[0]);
        words.push(glyph[1]);
        proof {
            assert forall|g: int| 0 <= g < i + 1 implies #[trigger] words@[2 * g] == font@[g][0]
                && words@[2 * g + 1] == font@[g][1] by {
                if g < i {
                    assert(words@[2 * g] == before[2 * g]);
                    assert(words@[2 * g + 1] == before[2 * g + 1]);
                }
            }
        }
        i = i + 1;
    }
    while words.len() < PACKED_FONT_WORDS
        invariant
            2 * FONT_GLYPHS <= words@.len() <= PACKED_FONT_WORDS,
            font@.len() == FONT_GLYPHS,
            forall|g: int| 0 <= g < FONT_GLYPHS ==> #[trigger] words@[2 * g] == font@[g][0]
                && words@[2 * g + 1] == font@[g][1],
            forall|j: int| 2 * FONT_GLYPHS <= j < words@.len() ==> #[trigger] words@[j] == 0,
        decreases PACKED_FONT_WORDS - words@.len(),
    {
        let ghost before = words@;
        words.push(0);
        proof {
            assert forall|g: int| 0 <= g < FONT_GLYPHS implies #[trigger] words@[2 * g] == font@[g][0]
                && words@[2 * g + 1] == font@[g][1] by {
                assert(words@[2 * g] == before[2 * g]);
                assert(words@[2 * g + 1] == before[2 * g + 1]);
            }
        }
    }
    words
}

/// The default font laid out for upload.
pub fn packed_font() -> (words: Vec<u32>)
    ensures
        is_packed_font(words@),
{
    let font = default_font();
    let words = pack_font(font.as_slice());
    proof {
        assert forall|j: int, k: int| 0 <= j < PACKED_FONT_WORDS && 0 <= k < 32 implies #[trigger] bit_set(
            words@[j],
            k,
        ) == font_word_bit(j, k) by {
            if j < 2 * FONT_GLYPHS {
                let g = j / 2;
                assert(0 <= g < FONT_GLYPHS);
                if j % 2 == 0 {
                    assert(j == 2 * g);
                    assert(words@[2 * g] == font@[g][0]);
                    assert(bit_set(font@[g][0], k) == picture_bit(FONT_PICTURES[g]@, k));
                } else {
                    assert(j == 2 * g + 1);
                    assert(words@[2 * g] == font@[g][0]);
                    assert(words@[2 * g + 1] == font@[g][1]);
                    assert(bit_set(font@[g][1], k) == picture_bit(FONT_PICTURES[g]@, k + 32));
                }
            } else {
                assert(words@[j] == 0);
                lemma_zero_bits(k as u32);
            }
        }
    }
    words
}

/// The four bytes of `w`, least significant first.
pub open spec fn le_bytes(w: u32) -> Seq<u8> {
    seq![
        (w & 0xffu32) as u8,
        ((w >> 8u32) & 0xffu32) as u8,
        ((w >> 16u32) & 0xffu32) as u8,
        ((w >> 24u32) & 0xffu32) as u8,
    ]
}

/// The four bytes of `w` in little-endian order if `little`, else big-endian.
pub open spec fn word_bytes(w: u32, little: bool) -> Seq<u8> {
    if little {
        le_bytes(w)
    } else {
        le_bytes(w).reverse()
    }
}

/// `bytes` holds the words of `words` one after the other, four bytes each,
/// all in the one byte order `little` names.
pub open spec fn words_in_order(words: Seq<u32>, bytes: Seq<u8>, little: bool) -> bool {
    &&& bytes.len() == 4 * words.len()
    &&& forall|i: int| 0 <= i < words.len() ==> #[trigger] bytes.subrange(4 * i, 4 * i + 4)
        == word_bytes(words[i], little)
}

/// Calls `bytemuck::cast_slice::<u32, u8>`, which views the words' memory as
/// bytes (it cannot fail for this pair of types), and copies the view. The
/// contract claims that each word becomes its four bytes, in the machine's
/// byte order, which is little- or big-endian and the same for all words;
/// which of the two is left open, since it depends on the machine.
#[verifier::external_body]
fn cast_words_to_bytes(words: &[u32]) -> (bytes: Vec<u8>)
    ensures
        exists|little: bool| words_in_order(words@, bytes@, little),
{
    bytemuck::cast_slice::<u32, u8>(words).to_vec()
}

/// The bytes to upload into the font buffer: `packed_font` in the machine's
/// byte order.
pub fn font_upload_bytes() -> (bytes: Vec<u8>)
    ensures
        bytes@.len() == FONT_BUFFER_SIZE,
        exists|words: Seq<u32>, little: bool| is_packed_font(words) && words_in_order(words, bytes@, little),
{
    let words = packed_font();
    let bytes = cast_words_to_bytes(words.as_slice());
    proof {
        let little = choose|little: bool| words_in_order(words@, bytes@, little);
        assert(is_packed_font(words@) && words_in_order(words@, bytes@, little));
    }
    bytes
}


/// Whether an update uploads the font: only the first update that finds a
/// font buffer, while the font is not loaded yet.
pub open spec fn spec_uploads(loaded: bool, has_buffer: bool) -> bool {
    !loaded && has_buffer
}

/// Tracks whether the font has been uploaded into the font buffer.
#[derive(Debug, Clone, Copy, PartialEq, Eq, Structural)]
pub struct FontUploader {
    pub loaded: bool,
}

impl FontUploader {
    /// Nothing uploaded yet.
    pub fn new() -> (uploader: FontUploader)
        ensures
            !uploader.loaded,
    {
        FontUploader { loaded: false }
    }

    /// Called on each update: returns the bytes to write into the font
    /// buffer the first time one exists, and nothing after that.
    pub fn on_update(&mut self, has_buffer: bool) -> (upload: Option<Vec<u8>>)
        ensures
            upload is Some <==> spec_uploads(old(self).loaded, has_buffer),
            final(self).loaded == (old(self).loaded || has_buffer),
            upload matches Some(bytes) ==> bytes@.len() == FONT_BUFFER_SIZE && exists|
                words: Seq<u32>,
                little: bool,
            | is_packed_font(words) && words_in_order(words, bytes@, little),
    {
        if !self.loaded && has_buffer {
            self.loaded = true;
            Some(font_upload_bytes())
        } else {
            None
        }
    }
}

/// The font goes up at most once: an update that uploads leaves the tracker
/// in a state from which no update uploads again.
pub proof fn lemma_font_uploaded_once(loaded: bool, has_buffer: bool, later: bool)
    requires
        spec_uploads(loaded, has_buffer),
    ensures
        !spec_uploads(loaded || has_buffer, later),
{
}

} // verus!
