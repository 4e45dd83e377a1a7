use vstd::prelude::*;

verus! {

/// Side of the square, in texels, in which one glyph's field is rendered.
pub const GLYPH_SIZE: usize = 31;
/// Texels left empty between neighbouring glyph cells.
pub const GLYPYH_MARGIN: usize = 1;
/// Side of one glyph cell of the atlas, margin included.
pub const SPACE_PER_GLYPH: usize = GLYPH_SIZE + GLYPYH_MARGIN;
/// First code point of the printable ASCII block.
pub const UTF_8_START: usize = 0x0020;
/// One past the last code point of the printable ASCII block.
pub const UTF_8_END: usize = 0x007F;
/// First code point of the Latin-1 supplement block that is rendered.
pub const EXTRA_START: usize = 0x00A0;
/// One past the last code point of the Latin-1 supplement block.
pub const EXTRA_END: usize = 0x0100;
/// Number of characters that a font atlas holds.
pub const WESTERN_CHAR_COUNT: usize = UTF_8_END - UTF_8_START + EXTRA_END - EXTRA_START;
/// Height in texels of the glyph atlas.
pub const ATLAS_HEIGHT: usize = 384;
/// Width in texels of the glyph atlas.
pub const ATLAS_WIDTH: usize = 512;
/// Glyph cells per row of the glyph atlas.
pub const ATLAS_COLUMNS: usize = 16;

/// The atlas slot of a character: printable ASCII characters come first,
/// then every code point from U+00A0 on (beyond U+00FF these slots lie
/// outside the atlas).
pub open spec fn char_index(c: char) -> Option<int> {
    let code = c as int;
    if UTF_8_START <= code < UTF_8_END {
        Some(code - UTF_8_START)
    } else if code >= EXTRA_START {
        Some(code - EXTRA_START + UTF_8_END - UTF_8_START)
    } else {
        None
    }
}

pub fn map_char_to_index(c: char) -> (r: Option<usize>)
    ensures
        r matches Some(i) ==> char_index(c) == Some(i as int),
        r is None ==> char_index(c) is None,
{
    let code = c as u32 as usize;
    if code >= UTF_8_START && code < UTF_8_END {
        Some(code - UTF_8_START)
    } else if code >= EXTRA_START {
        Some(code - EXTRA_START + UTF_8_END - UTF_8_START)
    } else {
        None
    }
}

/// The code point of the `k`-th character of the atlas.
pub open spec fn western_code(k: int) -> int {
    if k < UTF_8_END - UTF_8_START {
        UTF_8_START + k
    } else {
        EXTRA_START + k - (UTF_8_END - UTF_8_START)
    }
}

/// The characters of the atlas, in slot order: U+0020..U+007E, then U+00A0..U+00FF.
pub fn get_western_iterator() -> (r: Vec<char>)
    ensures
        r@.len() == WESTERN_CHAR_COUNT,
        forall|k: int| 0 <= k < WESTERN_CHAR_COUNT ==> #[trigger] r@[k] as int == western_code(k),
{
    let mut r: Vec<char> = Vec::new();
    let mut code: u8 = UTF_8_START as u8;
    while code < UTF_8_END as u8
        invariant
            UTF_8_START <= code <= UTF_8_END,
            r@.len() == code - UTF_8_START,
            forall|k: int| 0 <= k < r@.len() ==> #[trigger] r@[k] as int == western_code(k),
        decreases UTF_8_END - code,
    {
        r.push(code as char);
        code = code + 1;
    }
    let mut code: u16 = EXTRA_START as u16;
    while code < EXTRA_END as u16
        invariant
            EXTRA_START <= code <= EXTRA_END,
            r@.len() == UTF_8_END - UTF_8_START + code - EXTRA_START,
            forall|k: int| 0 <= k < r@.len() ==> #[trigger] r@[k] as int == western_code(k),
        decreases EXTRA_END - code,
    {
        r.push((code as u8) as char);
        code = code + 1;
    }
    r
}

/// The `k`-th character of the atlas maps back to slot `k`, and a character
/// that maps to a slot of the atlas is the character of that slot.
pub proof fn lemma_western_slots(k: int, c: char)
    requires
        0 <= k < WESTERN_CHAR_COUNT,
    ensures
        c as int == western_code(k) ==> char_index(c) == Some(k),
        char_index(c) == Some(k) ==> c as int == western_code(k),
{
}

/// `s` is a power of two.
pub open spec fn is_power_of_two(s: int) -> bool
    decreases s,
{
    if s <= 1 {
        s == 1
    } else {
        s % 2 == 0 && is_power_of_two(s / 2)
    }
}

/// `columns` is the side of the smallest square grid with a power-of-two
/// side that has room for `char_amount` cells.
pub open spec fn is_grid_side(columns: int, char_amount: int) -> bool {
    &&& is_power_of_two(columns)
    &&& columns * columns >= char_amount
    &&& (columns == 1 || (columns / 2) * (columns / 2) < char_amount)
}

/// The atlas computation for `char_amount` cells stays within `usize`: the
/// grid side, its square, the rounded-up row count and both texel extents fit.
pub open spec fn atlas_params_fit(char_amount: int) -> bool {
    exists|c: int|
        #![trigger is_grid_side(c, char_amount)]
        is_grid_side(c, char_amount) && c * c <= usize::MAX && char_amount + c <= usize::MAX && ((
        char_amount + c - 1) / c) * SPACE_PER_GLYPH <= usize::MAX && c * SPACE_PER_GLYPH <= usize::MAX
}

/// Height and width in texels, and columns, of an atlas with room for
/// `char_amount` glyph cells: the grid has the smallest power-of-two side
/// whose square holds them all, and as many rows as the cells fill.
pub fn calculate_atlas_params(char_amount: usize) -> (r: (usize, usize, usize))
    requires
        atlas_params_fit(char_amount as int),
    ensures
        is_grid_side(r.2 as int, char_amount as int),
        r.0 == ((char_amount + r.2 - 1) / r.2 as int) * SPACE_PER_GLYPH,
        r.1 == r.2 * SPACE_PER_GLYPH,
{
    let ghost c: int = choose|c: int|
        #![trigger is_grid_side(c, char_amount as int)]
        is_grid_side(c, char_amount as int) && c * c <= usize::MAX && char_amount + c <= usize::MAX && ((
        char_amount + c - 1) / c) * SPACE_PER_GLYPH <= usize::MAX && c * SPACE_PER_GLYPH <= usize::MAX;
    proof {
        lemma_power_of_two_positive(c);
        assert(c <= c * c) by (nonlinear_arith)
            requires
                c >= 1,
        ;
    }
    let mut size: usize = 1;
    proof {
        assert(size * size <= c * c) by (nonlinear_arith)
            requires
                1 <= size <= c,
        ;
    }
    while size * size < char_amount
        invariant
            1 <= size <= c,
            is_power_of_two(size as int),
            size == 1 || (size / 2) * (size / 2) < char_amount,
            is_grid_side(c, char_amount as int),
            size * size <= c * c,
            c * c <= usize::MAX,
            c <= usize::MAX,
            char_amount + c <= usize::MAX,
            ((char_amount + c - 1) / c) * SPACE_PER_GLYPH <= usize::MAX,
            c * SPACE_PER_GLYPH <= usize::MAX,
        decreases c - size,
    {
        proof {
            assert(size < c) by {
                if size >= c {
                    assert(size * size >= c * c) by (nonlinear_arith)
                        requires
                            size >= c,
                            c >= 1,
                    ;
                }
            }
            lemma_power_of_two_double(size as int, c);
            assert((2 * size) / 2 == size);
            assert((2 * size) % 2 == 0);
            assert((2 * size) * (2 * size) <= c * c) by (nonlinear_arith)
                requires
                    1 <= 2 * size <= c,
            ;
        }
        size = size * 2;
    }
    proof {
        assert(is_grid_side(size as int, char_amount as int));
        lemma_grid_side_unique(size as int, c, char_amount as int);
        assert(size == c);
    }
    let columns = size;
    let rows = (char_amount + columns - 1) / columns;
    (rows * SPACE_PER_GLYPH, columns * SPACE_PER_GLYPH, columns)
}

/// Every amount of cells up to `usize::MAX / 64` can be planned.
pub proof fn lemma_atlas_params_fit(char_amount: int)
    requires
        0 <= char_amount <= usize::MAX / 64,
    ensures
        atlas_params_fit(char_amount),
{
    let c = grid_side_of(char_amount, 1);
    lemma_grid_side_of(char_amount, 1);
    if c > 1 {
        lemma_power_of_two_even(c);
        let h = c / 2;
        assert(h <= h * h) by (nonlinear_arith)
            requires
                h >= 1,
        ;
    }
    assert(c <= 2 * char_amount || c == 1);
    assert(c * c <= usize::MAX) by (nonlinear_arith)
        requires
            c >= 1,
            (c / 2) * (c / 2) < char_amount || c == 1,
            c % 2 == 0 || c == 1,
            char_amount <= usize::MAX / 64,
    ;
    if char_amount == 0 {
        assert(c == 1);
    } else {
        assert((char_amount + c - 1) / c <= char_amount) by (nonlinear_arith)
            requires
                c >= 1,
                char_amount >= 1,
        ;
    }
    assert(is_grid_side(c, char_amount));
}

/// The power-of-two grid side for `char_amount` cells, searched from `s` up.
pub open spec fn grid_side_of(char_amount: int, s: int) -> int
    decreases char_amount - s,
{
    if s < 1 || s * s >= char_amount {
        s
    } else {
        proof {
            assert(2 * s <= s * s + 1) by (nonlinear_arith);
        }
        grid_side_of(char_amount, 2 * s)
    }
}

proof fn lemma_grid_side_of(char_amount: int, s: int)
    requires
        0 <= char_amount,
        1 <= s,
        is_power_of_two(s),
        s == 1 || (s / 2) * (s / 2) < char_amount,
    ensures
        is_grid_side(grid_side_of(char_amount, s), char_amount),
    decreases char_amount - s,
{
    if s * s >= char_amount {
    } else {
        assert(s < char_amount) by (nonlinear_arith)
            requires
                s * s < char_amount,
                s >= 1,
        ;
        assert(2 * s <= s * s + 1) by (nonlinear_arith);
        assert((2 * s) / 2 == s);
        assert((2 * s) % 2 == 0);
        lemma_grid_side_of(char_amount, 2 * s);
    }
}

proof fn lemma_power_of_two_even(a: int)
    requires
        is_power_of_two(a),
        a > 1,
    ensures
        a % 2 == 0,
        is_power_of_two(a / 2),
        a == 2 * (a / 2),
{
}

proof fn lemma_power_of_two_double(a: int, b: int)
    requires
        is_power_of_two(a),
        is_power_of_two(b),
        a < b,
    ensures
        2 * a <= b,
    decreases b,
{
    lemma_power_of_two_positive(a);
    lemma_power_of_two_even(b);
    if a > 1 {
        lemma_power_of_two_even(a);
        lemma_power_of_two_double(a / 2, b / 2);
    }
}

proof fn lemma_power_of_two_positive(a: int)
    requires
        is_power_of_two(a),
    ensures
        a >= 1,
    decreases a,
{
    if a > 1 {
        lemma_power_of_two_positive(a / 2);
    }
}

/// The grid side of an amount of cells is unique: at most one power of two
/// is large enough while its half is not.
pub proof fn lemma_grid_side_unique(a: int, b: int, char_amount: int)
    requires
        is_grid_side(a, char_amount),
        is_grid_side(b, char_amount),
    ensures
        a == b,
{
    lemma_power_of_two_positive(a);
    lemma_power_of_two_positive(b);
    if a < b {
        lemma_power_of_two_double(a, b);
        assert((b / 2) * (b / 2) >= a * a) by (nonlinear_arith)
            requires
                b / 2 >= a,
                a >= 1,
        ;
    } else if b < a {
        lemma_power_of_two_double(b, a);
        assert((a / 2) * (a / 2) >= b * b) by (nonlinear_arith)
            requires
                a / 2 >= b,
                b >= 1,
        ;
    }
}

/// The atlas constants are what `calculate_atlas_params` gives for the
/// number of western characters.
pub proof fn lemma_atlas_constants()
    ensures
        is_grid_side(ATLAS_COLUMNS as int, WESTERN_CHAR_COUNT as int),
        ATLAS_HEIGHT == ((WESTERN_CHAR_COUNT + ATLAS_COLUMNS - 1) / ATLAS_COLUMNS as int) * SPACE_PER_GLYPH,
        ATLAS_WIDTH == ATLAS_COLUMNS * SPACE_PER_GLYPH,
{
    assert(is_power_of_two(16)) by {
        assert(is_power_of_two(1));
        assert(is_power_of_two(2));
        assert(is_power_of_two(4));
        assert(is_power_of_two(8));
    }
}

/// The index in the atlas image of texel (`x`, `y`) of glyph cell `idx`:
/// cells fill rows of `ATLAS_COLUMNS`, each `SPACE_PER_GLYPH` texels square.
pub open spec fn glyph_texel(idx: int, x: int, y: int) -> int {
    ((idx / ATLAS_COLUMNS as int) * SPACE_PER_GLYPH + y) * ATLAS_WIDTH + (idx % ATLAS_COLUMNS as int)
        * SPACE_PER_GLYPH + x
}

pub fn glyph_texel_index(idx: usize, x: usize, y: usize) -> (r: usize)
    requires
        idx < WESTERN_CHAR_COUNT,
        x < GLYPH_SIZE,
        y < GLYPH_SIZE,
    ensures
        r == glyph_texel(idx as int, x as int, y as int),
        r < ATLAS_WIDTH * ATLAS_HEIGHT,
{
    let start_y = (idx / ATLAS_COLUMNS) * SPACE_PER_GLYPH;
    let start_x = (idx % ATLAS_COLUMNS) * SPACE_PER_GLYPH;
    (start_y + y) * ATLAS_WIDTH + start_x + x
}

/// Whether atlas texel `i` lies in the cell of glyph `idx`, the cell's
/// margin left out.
pub open spec fn in_glyph_cell(idx: int, i: int) -> bool {
    let row = i / ATLAS_WIDTH as int;
    let col = i % ATLAS_WIDTH as int;
    let start_y = (idx / ATLAS_COLUMNS as int) * SPACE_PER_GLYPH;
    let start_x = (idx % ATLAS_COLUMNS as int) * SPACE_PER_GLYPH;
    &&& start_y <= row < start_y + GLYPH_SIZE
    &&& start_x <= col < start_x + GLYPH_SIZE
}

/// The pixel of a rendered glyph that lands on texel (`x`, `y`) of its cell:
/// the glyph's rows come top row first and the atlas's bottom row first, so
/// the rows are flipped.
pub open spec fn glyph_source_pixel<T>(pixels: Seq<T>, x: int, y: int) -> T {
    pixels[(GLYPH_SIZE - 1 - y) * GLYPH_SIZE + x]
}

proof fn lemma_texel_in_cell(idx: int, x: int, y: int)
    requires
        0 <= idx < WESTERN_CHAR_COUNT,
        0 <= x < GLYPH_SIZE,
        0 <= y < GLYPH_SIZE,
    ensures
        in_glyph_cell(idx, glyph_texel(idx, x, y)),
        0 <= glyph_texel(idx, x, y) < ATLAS_WIDTH * ATLAS_HEIGHT,
{
    let q = idx / 16;
    let m = idx % 16;
    let start_y = q * 32;
    let start_x = m * 32;
    assert(0 <= q < 12 && 0 <= m < 16) by (nonlinear_arith)
        requires
            0 <= idx < 191,
            q == idx / 16,
            m == idx % 16,
    ;
    assert(0 <= start_x + x < 512 && 0 <= start_y + y < 384) by (nonlinear_arith)
        requires
            0 <= q < 12,
            0 <= m < 16,
            0 <= x < 31,
            0 <= y < 31,
            start_x == m * 32,
            start_y == q * 32,
    ;
    assert(0 <= (start_y + y) * 512 + (start_x + x) < 384 * 512) by (nonlinear_arith)
        requires
            0 <= start_x + x < 512,
            0 <= start_y + y < 384,
    ;
    vstd::arithmetic::div_mod::lemma_fundamental_div_mod_converse(
        glyph_texel(idx, x, y),
        ATLAS_WIDTH as int,
        start_y + y,
        start_x + x,
    );
}

/// Writes the rendered glyph `pixels` (`GLYPH_SIZE` rows of `GLYPH_SIZE`
/// pixels, top row first) into the cell of glyph `idx` of the atlas, rows
/// flipped; every texel outside the cell is left as it was.
pub fn write_glyph_cell<T: Copy>(atlas: &mut Vec<T>, idx: usize, pixels: &Vec<T>)
    requires
        idx < WESTERN_CHAR_COUNT,
        old(atlas)@.len() == ATLAS_WIDTH * ATLAS_HEIGHT,
        pixels@.len() == GLYPH_SIZE * GLYPH_SIZE,
    ensures
        final(atlas)@.len() == old(atlas)@.len(),
        forall|x: int, y: int|
            0 <= x < GLYPH_SIZE && 0 <= y < GLYPH_SIZE ==> #[trigger] final(atlas)@[glyph_texel(idx as int, x, y)]
                == glyph_source_pixel(pixels@, x, y),
        forall|i: int|
            0 <= i < old(atlas)@.len() && !in_glyph_cell(idx as int, i) ==> #[trigger] final(atlas)@[i]
                == old(atlas)@[i],
{
    let ghost orig = atlas@;
    let mut y: usize = 0;
    while y < GLYPH_SIZE
        invariant
            y <= GLYPH_SIZE,
            idx < WESTERN_CHAR_COUNT,
            pixels@.len() == GLYPH_SIZE * GLYPH_SIZE,
            orig.len() == ATLAS_WIDTH * ATLAS_HEIGHT,
            atlas@.len() == orig.len(),
            forall|xx: int, yy: int|
                0 <= xx < GLYPH_SIZE && 0 <= yy < y ==> #[trigger] atlas@[glyph_texel(idx as int, xx, yy)]
                    == glyph_source_pixel(pixels@, xx, yy),
            forall|i: int|
                0 <= i < orig.len() && !in_glyph_cell(idx as int, i) ==> #[trigger] atlas@[i] == orig[i],
        decreases GLYPH_SIZE - y,
    {
        let mut x: usize = 0;
        while x < GLYPH_SIZE
            invariant
                x <= GLYPH_SIZE,
                y < GLYPH_SIZE,
                idx < WESTERN_CHAR_COUNT,
                pixels@.len() == GLYPH_SIZE * GLYPH_SIZE,
                orig.len() == ATLAS_WIDTH * ATLAS_HEIGHT,
                atlas@.len() == orig.len(),
                forall|xx: int, yy: int|
                    0 <= xx < GLYPH_SIZE && 0 <= yy < y ==> #[trigger] atlas@[glyph_texel(idx as int, xx, yy)]
                        == glyph_source_pixel(pixels@, xx, yy),
                forall|xx: int|
                    0 <= xx < x ==> #[trigger] atlas@[glyph_texel(idx as int, xx, y as int)]
                        == glyph_source_pixel(pixels@, xx, y as int),
                forall|i: int|
                    0 <= i < orig.len() && !in_glyph_cell(idx as int, i) ==> #[trigger] atlas@[i] == orig[i],
            decreases GLYPH_SIZE - x,
        {
            let t = glyph_texel_index(idx, x, y);
            let p = pixels[(GLYPH_SIZE - 1 - y) * GLYPH_SIZE + x];
            let ghost before = atlas@;
            proof {
                lemma_texel_in_cell(idx as int, x as int, y as int);
            }
            atlas.set(t, p);
            proof {
                assert forall|xx: int, yy: int|
                    0 <= xx < GLYPH_SIZE && 0 <= yy < GLYPH_SIZE && (xx != x || yy != y) implies
                    #[trigger] atlas@[glyph_texel(idx as int, xx, yy)] == before[glyph_texel(idx as int, xx, yy)] by {
                    lemma_texel_in_cell(idx as int, xx, yy);
                    if glyph_texel(idx as int, xx, yy) == t {
                        lemma_glyph_texels_disjoint(idx as int, xx, yy, idx as int, x as int, y as int);
                    }
                }
            }
            x = x + 1;
        }
        y = y + 1;
    }
}

/// Glyph cells do not overlap: two texels of glyph cells land on the same
/// atlas texel only if they are the same texel of the same glyph.
pub proof fn lemma_glyph_texels_disjoint(i1: int, x1: int, y1: int, i2: int, x2: int, y2: int)
    requires
        0 <= i1 < WESTERN_CHAR_COUNT,
        0 <= i2 < WESTERN_CHAR_COUNT,
        0 <= x1 < GLYPH_SIZE,
        0 <= y1 < GLYPH_SIZE,
        0 <= x2 < GLYPH_SIZE,
        0 <= y2 < GLYPH_SIZE,
        glyph_texel(i1, x1, y1) == glyph_texel(i2, x2, y2),
    ensures
        i1 == i2 && x1 == x2 && y1 == y2,
{
    let r1 = i1 / 16;
    let c1 = i1 % 16;
    let r2 = i2 / 16;
    let c2 = i2 % 16;
    let row1 = r1 * 32 + y1;
    let row2 = r2 * 32 + y2;
    let col1 = c1 * 32 + x1;
    let col2 = c2 * 32 + x2;
    assert(0 <= col1 < 512 && 0 <= col2 < 512);
    assert(row1 * 512 + col1 == row2 * 512 + col2);
    assert(row1 == row2 && col1 == col2) by (nonlinear_arith)
        requires
            row1 * 512 + col1 == row2 * 512 + col2,
            0 <= col1 < 512,
            0 <= col2 < 512,
    ;
    assert(r1 == r2 && y1 == y2) by (nonlinear_arith)
        requires
            r1 * 32 + y1 == r2 * 32 + y2,
            0 <= y1 < 31,
            0 <= y2 < 31,
    ;
    assert(c1 == c2 && x1 == x2) by (nonlinear_arith)
        requires
            c1 * 32 + x1 == c2 * 32 + x2,
            0 <= x1 < 31,
            0 <= x2 < 31,
    ;
}

/// The atlas slots of the characters of `text` that have one, in order.
pub open spec fn glyph_slots(text: Seq<char>) -> Seq<usize>
    decreases text.len(),
{
    if text.len() == 0 {
        seq![]
    } else {
        let rest = glyph_slots(text.drop_last());
        match char_index(text.last()) {
            Some(i) => rest.push(i as usize),
            None => rest,
        }
    }
}

/// The atlas slots of the characters of `text`, skipping the characters
/// that have none.
pub fn glyph_indices(text: &str) -> (r: Vec<usize>)
    ensures
        r@ == glyph_slots(text@),
{
    let mut r: Vec<usize> = Vec::new();
    proof {
        broadcast use vstd::string::axiom_spec_iter;
    }
    for c in it: text.chars()
        invariant
            it.seq() == text@,
            r@ == glyph_slots(it.seq().take(it.index() as int)),
    {
        proof {
            assert(it.seq().take(it.index() as int + 1).drop_last() =~= it.seq().take(it.index() as int));
        }
        match map_char_to_index(c) {
            Some(i) => r.push(i),
            None => {},
        }
    }
    assert(text@.take(text@.len() as int) =~= text@);
    r
}

} // verus!
