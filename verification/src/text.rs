use vstd::prelude::*;

verus! {

/// Number of characters a text effect can hold.
pub const MAX_CHARS: usize = 32;

/// Glyph id of the space character.
pub const SPACE_ID: i32 = 26;

/// Id of a character that the font does not hold; such a cell draws nothing.
pub const UNKNOWN_ID: i32 = -1;

/// The glyph id of a character: letters (either case) map to 0..=25 in
/// alphabetical order, the space to 26, anything else to -1.
pub open spec fn spec_char_id(c: char) -> int {
    if 'A' <= c && c <= 'Z' {
        c as int - 'A' as int
    } else if 'a' <= c && c <= 'z' {
        c as int - 'a' as int
    } else if c == ' ' {
        SPACE_ID as int
    } else {
        UNKNOWN_ID as int
    }
}

/// Returns the glyph id of `c` in the default font, or -1 where the font has
/// no glyph for it.
pub fn char_id(c: char) -> (id: i32)
    ensures
        id == spec_char_id(c),
        -1 <= id < 27,
        'A' <= c <= 'Z' ==> id == (c as u32) - ('A' as u32),
        'a' <= c <= 'z' ==> id == (c as u32) - ('a' as u32),
        c == ' ' ==> id == 26,
        !('A' <= c <= 'Z') && !('a' <= c <= 'z') && c != ' ' ==> id == -1,
{
    if 'A' <= c && c <= 'Z' {
        (c as u32 - 'A' as u32) as i32
    } else if 'a' <= c && c <= 'z' {
        (c as u32 - 'a' as u32) as i32
    } else if c == ' ' {
        SPACE_ID
    } else {
        UNKNOWN_ID
    }
}


/// The glyph id stored in cell `i` of the layout of `text`: the id of the
/// `i`-th character, or -1 past the end of the text.
pub open spec fn spec_cell(text: Seq<char>, i: int) -> int {
    if 0 <= i < text.len() {
        spec_char_id(text[i])
    } else {
        UNKNOWN_ID as int
    }
}

/// One past the index of the last cell, among the first `k`, that holds a
/// glyph; 0 where none does.
pub open spec fn spec_num_chars(text: Seq<char>, k: int) -> int
    decreases k,
{
    if k <= 0 {
        0
    } else if spec_cell(text, k - 1) != UNKNOWN_ID as int {
        k
    } else {
        spec_num_chars(text, k - 1)
    }
}

/// The number of drawn cells is one past the last cell that holds a glyph:
/// no cell from there on holds one, and the cell just before it does.
pub proof fn lemma_num_chars_is_last_glyph(text: Seq<char>, k: int)
    requires
        0 <= k,
    ensures
        0 <= spec_num_chars(text, k) <= k,
        spec_num_chars(text, k) > 0 ==> spec_cell(text, spec_num_chars(text, k) - 1)
            != UNKNOWN_ID as int,
        forall|j: int| spec_num_chars(text, k) <= j < k ==> spec_cell(text, j) == UNKNOWN_ID as int,
    decreases k,
{
    if k > 0 {
        lemma_num_chars_is_last_glyph(text, k - 1);
    }
}

/// The upper-case form of an ASCII lower-case letter; any other character
/// is left as it is.
pub open spec fn ascii_upper(c: char) -> char {
    if 'a' <= c && c <= 'z' {
        ((c as int) - 32) as char
    } else {
        c
    }
}

/// Glyph ids ignore ASCII case, and each id is either -1 (no glyph) or the
/// index of a glyph of the default font.
pub proof fn lemma_char_id_in_font(c: char)
    ensures
        spec_char_id(ascii_upper(c)) == spec_char_id(c),
        spec_char_id(c) == UNKNOWN_ID as int || 0 <= spec_char_id(c) < crate::font::FONT_GLYPHS,
{
}

/// Each letter gets its index in the alphabet, whatever its case ('A' and
/// 'a' are 0, 'O' and 'o' are 14, 'Z' and 'z' are 25), so that it is drawn
/// with the picture of that letter; the space gets 26, the space picture;
/// every other character gets -1 and is not drawn.
pub proof fn lemma_char_id_is_alphabet_index(c: char)
    ensures
        'A' <= c <= 'Z' ==> spec_char_id(c) == (c as u32) - 65,
        'a' <= c <= 'z' ==> spec_char_id(c) == (c as u32) - 97,
        c == ' ' ==> spec_char_id(c) == 26,
        !('A' <= c <= 'Z') && !('a' <= c <= 'z') && c != ' ' ==> spec_char_id(c) == -1,
        forall|d: char| 'A' <= c <= 'Z' && 'A' <= d <= 'Z' && c != d ==> spec_char_id(c) != spec_char_id(d),
{
}

/// Cell `i` of a layout holds the glyph id of the `i`-th character of the
/// text while there is one, and -1 after the end of the text.
pub proof fn lemma_cell_is_char_id(text: Seq<char>, i: int)
    requires
        0 <= i < MAX_CHARS,
    ensures
        i < text.len() ==> spec_cell(text, i) == spec_char_id(text[i]),
        i >= text.len() ==> spec_cell(text, i) == -1,
{
}

/// Only the first `MAX_CHARS` characters of a text count: its cells and its
/// number of drawn cells are those of that prefix.
pub proof fn lemma_layout_ignores_tail(text: Seq<char>, k: int)
    requires
        0 <= k <= MAX_CHARS,
    ensures
        spec_num_chars(text, k) == spec_num_chars(text.take(min_len(text, MAX_CHARS as int)), k),
        forall|i: int| 0 <= i < MAX_CHARS ==> #[trigger] spec_cell(text, i) == spec_cell(
            text.take(min_len(text, MAX_CHARS as int)),
            i,
        ),
    decreases k,
{
    let t = text.take(min_len(text, MAX_CHARS as int));
    assert forall|i: int| 0 <= i < MAX_CHARS implies #[trigger] spec_cell(text, i) == spec_cell(t, i) by {
        if i < text.len() {
            assert(t[i] == text[i]);
        }
    }
    if k > 0 {
        lemma_layout_ignores_tail(text, k - 1);
        assert(spec_cell(text, k - 1) == spec_cell(t, k - 1));
    }
}

/// The smaller of the length of `text` and `n`.
pub open spec fn min_len(text: Seq<char>, n: int) -> int {
    if text.len() < n {
        text.len() as int
    } else {
        n
    }
}

/// The glyph layout of a text: one id per character cell, the first
/// `MAX_CHARS` characters of the text, and how many cells are drawn.
pub struct TextLayout {
    /// Glyph ids, one per cell, `MAX_CHARS` of them; -1 marks an empty cell.
    pub char_ids: Vec<i32>,
    /// Number of cells drawn: one past the last cell that holds a glyph.
    pub num_chars: i32,
}

impl TextLayout {
    /// The layout is exactly the one `from_text` computes for `text`.
    pub open spec fn lays_out(&self, text: Seq<char>) -> bool {
        &&& self.char_ids@.len() == MAX_CHARS
        &&& forall|i: int| 0 <= i < MAX_CHARS ==> #[trigger] self.char_ids@[i] == spec_cell(text, i)
        &&& self.num_chars == spec_num_chars(text, MAX_CHARS as int)
    }

    /// Lays out the first `MAX_CHARS` characters of `text`.
    pub fn from_text(text: &str) -> (layout: TextLayout)
        ensures
            layout.lays_out(text@),
    {
        broadcast use vstd::string::axiom_spec_iter;
        let mut ids: Vec<i32> = Vec::new();
        let mut count: usize = 0;
        let mut i: usize = 0;
        for c in it: text.chars()
            invariant_except_break
                i == it.index(),
                i < MAX_CHARS,
            invariant
                it.seq() == text@,
                i <= MAX_CHARS,
                ids@.len() == i,
                forall|j: int| 0 <= j < i ==> #[trigger] ids@[j] == spec_cell(text@, j),
                count == spec_num_chars(text@, i as int),
                count <= i,
            ensures
                i == MAX_CHARS || i >= text@.len(),
        {
            let id = char_id(c);
            ids.push(id);
            if id != UNKNOWN_ID {
                count = i + 1;
            }
            i = i + 1;
            if i == MAX_CHARS {
                break;
            }
        }
        while i < MAX_CHARS
            invariant
                i <= MAX_CHARS,
                i >= text@.len() || i == MAX_CHARS,
                ids@.len() == i,
                forall|j: int| 0 <= j < i ==> #[trigger] ids@[j] == spec_cell(text@, j),
                count == spec_num_chars(text@, i as int),
                count <= i,
            decreases MAX_CHARS - i,
        {
            ids.push(UNKNOWN_ID);
            i = i + 1;
        }
        TextLayout { char_ids: ids, num_chars: count as i32 }
    }

    /// The cell ids as eight rows of four, the layout the text shader reads:
    /// cell `i` stands in row `i / 4`, column `i % 4`.
    pub fn id_rows(&self) -> (rows: [[i32; 4]; 8])
        requires
            self.char_ids@.len() == MAX_CHARS,
        ensures
            forall|r: int, c: int|
                0 <= r < 8 && 0 <= c < 4 ==> #[trigger] rows[r][c] == self.char_ids@[4 * r + c],
    {
        let v = &self.char_ids;
        let rows = [
            [v[0], v[1], v[2], v[3]],
            [v[4], v[5], v[6], v[7]],
            [v[8], v[9], v[10], v[11]],
            [v[12], v[13], v[14], v[15]],
            [v[16], v[17], v[18], v[19]],
            [v[20], v[21], v[22], v[23]],
            [v[24], v[25], v[26], v[27]],
            [v[28], v[29], v[30], v[31]],
        ];
        assert forall|r: int, c: int| 0 <= r < 8 && 0 <= c < 4 implies #[trigger] rows[r][c]
            == self.char_ids@[4 * r + c] by {
            assert(0 <= r < 8);
        }
        rows
    }
}

} // verus!
