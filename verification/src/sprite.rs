use vstd::prelude::*;

verus! {

/// The place in the pixel sequence of the pixel in column `x` of row `y` of
/// the screen, which is 64 pixels wide and 32 pixels high. Columns and rows
/// past the edge wrap around to the other side.
pub open spec fn pixel_index(x: int, y: int) -> int {
    (y % 32) * 64 + x % 64
}

/// Whether the pixel `column` places from the left is set in the sprite row
/// `row`. A row has eight pixels; the leftmost one is the byte's highest bit.
pub open spec fn sprite_bit(row: u8, column: int) -> bool {
    0 <= column < 8 && (row >> ((7 - column) as u8)) & 1 == 1
}

/// Whether the sprite row `row`, drawn with its left end at column `x` of
/// row `y`, has a set pixel that lands on pixel `i` of the screen.
pub open spec fn hit(row: u8, x: int, y: int, i: int) -> bool {
    exists|column: int| #[trigger] sprite_bit(row, column) && i == pixel_index(x + column, y)
}

/// Whether drawing the sprite `rows` at `(x, y)` flips pixel `i`. Row `r` of
/// the sprite goes to row `y + r` of the screen; a sprite taller than the
/// screen comes round to rows it has drawn on already, and a pixel hit twice
/// is back where it was.
pub open spec fn toggled(rows: Seq<u8>, x: int, y: int, i: int) -> bool
    decreases rows.len(),
{
    if rows.len() == 0 {
        false
    } else {
        toggled(rows.drop_last(), x, y, i) ^ hit(rows.last(), x, y + rows.len() - 1, i)
    }
}

/// The pixels after the sprite `rows` was drawn over `pixels` at `(x, y)`:
/// every pixel that the sprite flips is inverted, every other one is kept.
pub open spec fn drawn(pixels: Seq<bool>, rows: Seq<u8>, x: int, y: int) -> Seq<bool> {
    Seq::new(pixels.len(), |i: int| pixels[i] ^ toggled(rows, x, y, i))
}

/// Whether the sprite row `row`, drawn at `(x, y)`, has a set pixel that
/// lands on a pixel that is lit in `pixels`.
pub open spec fn row_collides(pixels: Seq<bool>, row: u8, x: int, y: int) -> bool {
    exists|column: int| #[trigger] sprite_bit(row, column) && pixels[pixel_index(x + column, y)]
}

/// Whether drawing the sprite `rows` over `pixels` at `(x, y)` puts a set
/// pixel on one that is lit at the moment its row is drawn, the rows being
/// drawn from the first to the last.
pub open spec fn collides(pixels: Seq<bool>, rows: Seq<u8>, x: int, y: int) -> bool
    decreases rows.len(),
{
    if rows.len() == 0 {
        false
    } else {
        collides(pixels, rows.drop_last(), x, y) || row_collides(
            drawn(pixels, rows.drop_last(), x, y),
            rows.last(),
            x,
            y + rows.len() - 1,
        )
    }
}

/// Whether the pixel `column` places from the left of row `r` of the sprite
/// `rows` is set.
pub open spec fn sprite_pixel(rows: Seq<u8>, r: int, column: int) -> bool {
    0 <= r < rows.len() && sprite_bit(rows[r], column)
}

/// The pixel of the screen on which the pixel `column` places from the left
/// of row `r` of a sprite lands, if the sprite's top left corner is at
/// `(x, y)`.
pub open spec fn landing(x: int, y: int, r: int, column: int) -> int {
    pixel_index(x + column, y + r)
}

/// Whether the sprite `rows`, with its top left corner at `(x, y)`, has a set
/// pixel that lands on pixel `i` of the screen.
pub open spec fn covers(rows: Seq<u8>, x: int, y: int, i: int) -> bool {
    exists|r: int, column: int| #[trigger]
        sprite_pixel(rows, r, column) && i == landing(x, y, r, column)
}

/// Whether the sprite `rows`, with its top left corner at `(x, y)`, has a set
/// pixel that lands on a pixel that is lit in `pixels`.
pub open spec fn lands_on_lit(pixels: Seq<bool>, rows: Seq<u8>, x: int, y: int) -> bool {
    exists|r: int, column: int| #[trigger]
        sprite_pixel(rows, r, column) && pixels[landing(x, y, r, column)]
}

/// The column of a sprite with its left end at column `x` that lands on
/// pixel `i` of the screen.
pub open spec fn column_of(x: int, i: int) -> int {
    (i % 64 - x) % 64
}

/// The row of a sprite with its top at row `y` that lands on pixel `i` of
/// the screen, if the sprite is no taller than the screen.
pub open spec fn row_of(y: int, i: int) -> int {
    (i / 64 - y) % 32
}

/// A pixel of a sprite lands on the screen, and its column and, in a sprite
/// no taller than the screen, its row can be told from where it lands.
pub proof fn law_landing(x: int, y: int, r: int, column: int)
    requires
        0 <= column < 64,
    ensures
        0 <= landing(x, y, r, column) < 2048,
        landing(x, y, r, column) / 64 == (y + r) % 32,
        column_of(x, landing(x, y, r, column)) == column,
        0 <= r < 32 ==> row_of(y, landing(x, y, r, column)) == r,
{
    let i = landing(x, y, r, column);
    assert(i % 64 == (x + column) % 64);
    assert(i / 64 == (y + r) % 32);
    assert((i % 64 - x) % 64 == column);
    if 0 <= r < 32 {
        assert((i / 64 - y) % 32 == r);
    }
}

/// A pixel of the screen is the landing place of the column and the row
/// that are told from it.
pub proof fn law_landing_back(x: int, y: int, i: int)
    requires
        0 <= i < 2048,
    ensures
        landing(x, y, row_of(y, i), column_of(x, i)) == i,
        0 <= column_of(x, i) < 64,
        0 <= row_of(y, i) < 32,
{
    let column = column_of(x, i);
    let r = row_of(y, i);
    assert((x + column) % 64 == i % 64);
    assert((y + r) % 32 == i / 64);
}

/// A sprite row hits the pixel of its own row of the screen whose column is
/// the place of one of its set pixels.
pub proof fn law_hit(row: u8, x: int, y: int, i: int)
    requires
        0 <= i < 2048,
    ensures
        hit(row, x, y, i) == (i / 64 == y % 32 && sprite_bit(row, column_of(x, i))),
{
    if hit(row, x, y, i) {
        let column = choose|column: int| #[trigger]
            sprite_bit(row, column) && i == pixel_index(x + column, y);
        law_landing(x, y, 0, column);
    }
    if i / 64 == y % 32 && sprite_bit(row, column_of(x, i)) {
        let column = column_of(x, i);
        assert((x + column) % 64 == i % 64);
        assert(i == pixel_index(x + column, y));
    }
}

/// A sprite that is no taller than the screen covers the pixel whose column
/// and row are the place of one of its set pixels.
pub proof fn law_covers(rows: Seq<u8>, x: int, y: int, i: int)
    requires
        rows.len() <= 32,
        0 <= i < 2048,
    ensures
        covers(rows, x, y, i) == sprite_pixel(rows, row_of(y, i), column_of(x, i)),
{
    if covers(rows, x, y, i) {
        let (r, column) = choose|r: int, column: int| #[trigger]
            sprite_pixel(rows, r, column) && i == landing(x, y, r, column);
        law_landing(x, y, r, column);
    }
    if sprite_pixel(rows, row_of(y, i), column_of(x, i)) {
        law_landing_back(x, y, i);
    }
}

/// Drawing a sprite that is no taller than the screen flips exactly the
/// pixels that the sprite covers.
pub proof fn law_toggled_where_covered(rows: Seq<u8>, x: int, y: int, i: int)
    requires
        rows.len() <= 32,
        0 <= i < 2048,
    ensures
        toggled(rows, x, y, i) == covers(rows, x, y, i),
    decreases rows.len(),
{
    law_covers(rows, x, y, i);
    if rows.len() > 0 {
        let shorter = rows.drop_last();
        let last = rows.len() - 1;
        law_toggled_where_covered(shorter, x, y, i);
        law_covers(shorter, x, y, i);
        law_hit(rows.last(), x, y + last, i);
        if i / 64 == (y + last) % 32 {
            assert(row_of(y, i) == last);
        } else {
            assert(row_of(y, i) != last);
        }
        assert(forall|k: int| 0 <= k < shorter.len() ==> shorter[k] == rows[k]);
    }
}

/// Drawing the same sprite twice at the same place leaves every pixel as it
/// was.
pub proof fn law_draw_twice_restores(pixels: Seq<bool>, rows: Seq<u8>, x: int, y: int)
    ensures
        drawn(drawn(pixels, rows, x, y), rows, x, y) == pixels,
{
    assert(drawn(drawn(pixels, rows, x, y), rows, x, y) =~= pixels);
}

/// While a sprite that is no taller than the screen is drawn, the rows drawn
/// before its last one leave the pixels under the last one alone.
proof fn lemma_last_row_untouched(pixels: Seq<bool>, rows: Seq<u8>, x: int, y: int, column: int)
    requires
        pixels.len() == 2048,
        0 < rows.len() <= 32,
        0 <= column < 8,
    ensures
        drawn(pixels, rows.drop_last(), x, y)[landing(x, y, rows.len() - 1, column)]
            == pixels[landing(x, y, rows.len() - 1, column)],
{
    let last = rows.len() - 1;
    let i = landing(x, y, last, column);
    law_landing(x, y, last, column);
    law_toggled_where_covered(rows.drop_last(), x, y, i);
    law_covers(rows.drop_last(), x, y, i);
    assert(!sprite_pixel(rows.drop_last(), last, column));
    assert(!toggled(rows.drop_last(), x, y, i));
}

/// Whether a set pixel of the last row of the sprite `rows` lands on a pixel
/// that is lit in `pixels`.
spec fn last_row_lands_on_lit(pixels: Seq<bool>, rows: Seq<u8>, x: int, y: int) -> bool {
    exists|column: int| #[trigger]
        sprite_pixel(rows, rows.len() - 1, column) && pixels[landing(
            x,
            y,
            rows.len() - 1,
            column,
        )]
}

/// A sprite that is no taller than the screen collides where it collides
/// without its last row, or where its last row lands on a pixel that was lit
/// before the sprite was drawn.
proof fn lemma_collides_by_row(pixels: Seq<bool>, rows: Seq<u8>, x: int, y: int)
    requires
        pixels.len() == 2048,
        0 < rows.len() <= 32,
    ensures
        collides(pixels, rows, x, y) == (collides(pixels, rows.drop_last(), x, y)
            || last_row_lands_on_lit(pixels, rows, x, y)),
{
    let last = rows.len() - 1;
    let row = rows.last();
    let before = drawn(pixels, rows.drop_last(), x, y);
    if row_collides(before, row, x, y + last) {
        let column = choose|column: int| #[trigger]
            sprite_bit(row, column) && before[pixel_index(x + column, y + last)];
        lemma_last_row_untouched(pixels, rows, x, y, column);
        assert(sprite_pixel(rows, last, column));
    }
    if last_row_lands_on_lit(pixels, rows, x, y) {
        let column = choose|column: int| #[trigger]
            sprite_pixel(rows, last, column) && pixels[landing(x, y, last, column)];
        lemma_last_row_untouched(pixels, rows, x, y, column);
        assert(sprite_bit(row, column) && before[pixel_index(x + column, y + last)]);
    }
}

/// A sprite lands on a lit pixel where it does so without its last row, or
/// where its last row does.
proof fn lemma_lands_by_row(pixels: Seq<bool>, rows: Seq<u8>, x: int, y: int)
    requires
        0 < rows.len(),
    ensures
        lands_on_lit(pixels, rows, x, y) == (lands_on_lit(pixels, rows.drop_last(), x, y)
            || last_row_lands_on_lit(pixels, rows, x, y)),
{
    let shorter = rows.drop_last();
    let last = rows.len() - 1;
    assert(forall|r: int, column: int| #[trigger]
        sprite_pixel(shorter, r, column) ==> sprite_pixel(rows, r, column));
    assert(forall|r: int, column: int| #[trigger]
        sprite_pixel(rows, r, column) && r != last ==> sprite_pixel(shorter, r, column));
    if lands_on_lit(pixels, rows, x, y) {
        let (r, column) = choose|r: int, column: int| #[trigger]
            sprite_pixel(rows, r, column) && pixels[landing(x, y, r, column)];
        if r == last {
            assert(last_row_lands_on_lit(pixels, rows, x, y));
        } else {
            assert(sprite_pixel(shorter, r, column));
        }
    }
    if lands_on_lit(pixels, shorter, x, y) {
        let (r, column) = choose|r: int, column: int| #[trigger]
            sprite_pixel(shorter, r, column) && pixels[landing(x, y, r, column)];
        assert(sprite_pixel(rows, r, column));
    }
    if last_row_lands_on_lit(pixels, rows, x, y) {
        let column = choose|column: int| #[trigger]
            sprite_pixel(rows, last, column) && pixels[landing(x, y, last, column)];
        assert(sprite_pixel(rows, last, column) && pixels[landing(x, y, last, column)]);
    }
}

/// Drawing a sprite that is no taller than the screen reports a collision
/// where one of its set pixels lands on a pixel that was lit before, and
/// nowhere else.
pub proof fn law_collides_where_lit(pixels: Seq<bool>, rows: Seq<u8>, x: int, y: int)
    requires
        pixels.len() == 2048,
        rows.len() <= 32,
    ensures
        collides(pixels, rows, x, y) == lands_on_lit(pixels, rows, x, y),
    decreases rows.len(),
{
    if rows.len() > 0 {
        law_collides_where_lit(pixels, rows.drop_last(), x, y);
        lemma_collides_by_row(pixels, rows, x, y);
        lemma_lands_by_row(pixels, rows, x, y);
    }
}

/// A sprite that is no taller than the screen, has a set pixel, and is drawn
/// where none of its set pixels lands on a lit one, is drawn without a
/// collision. Drawn again at the same place it collides, and the pixels are
/// back as they were before it was first drawn.
pub proof fn law_draw_twice(pixels: Seq<bool>, rows: Seq<u8>, x: int, y: int)
    requires
        pixels.len() == 2048,
        rows.len() <= 32,
        exists|r: int, column: int| #[trigger] sprite_pixel(rows, r, column),
        !lands_on_lit(pixels, rows, x, y),
    ensures
        !collides(pixels, rows, x, y),
        collides(drawn(pixels, rows, x, y), rows, x, y),
        drawn(drawn(pixels, rows, x, y), rows, x, y) == pixels,
{
    let once = drawn(pixels, rows, x, y);
    law_collides_where_lit(pixels, rows, x, y);
    law_collides_where_lit(once, rows, x, y);
    law_draw_twice_restores(pixels, rows, x, y);
    let (r, column) = choose|r: int, column: int| #[trigger] sprite_pixel(rows, r, column);
    let i = landing(x, y, r, column);
    law_landing(x, y, r, column);
    law_toggled_where_covered(rows, x, y, i);
    assert(!pixels[i]);
    assert(once[i]);
}

} // verus!
