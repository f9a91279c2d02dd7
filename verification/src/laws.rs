//! Board-level laws of the engine, each proved for every board the engine
//! can hold, not for chosen examples.

use vstd::prelude::*;

use crate::world::World;

verus! {

/// A corner cell's neighborhood truncates to at most 3 candidates, so its
/// live-neighbor count never exceeds 3 however the board is filled.
pub proof fn lemma_corner_truncation(w: World)
    ensures
        w.neighbor_count(0, 0) <= 3,
{
}

/// Rendering the first `y` rows gives `y` lines of `width + 1` characters
/// each (the row's glyphs and its newline).
pub proof fn lemma_render_upto_len(w: World, y: int)
    requires
        0 <= y,
    ensures
        w.render_upto(y).len() == y * (w.width + 1),
    decreases y,
{
    if y > 0 {
        lemma_render_upto_len(w, y - 1);
        assert((y - 1) * (w.width + 1) + (w.width + 1) == y * (w.width + 1)) by (nonlinear_arith);
    }
}

proof fn lemma_render_upto_holds_row(w: World, y: int, u: int)
    requires
        0 <= y < u,
    ensures
        w.render_upto(u).subrange(y * (w.width + 1), y * (w.width + 1) + w.width) == w.row_view(y),
        w.render_upto(u)[y * (w.width + 1) + w.width] == '\n',
    decreases u,
{
    lemma_render_upto_len(w, y);
    let lo = y * (w.width + 1);
    if u == y + 1 {
        assert(w.render_upto(u).subrange(lo, lo + w.width) =~= w.row_view(y));
    } else {
        lemma_render_upto_holds_row(w, y, u - 1);
        lemma_render_upto_len(w, u - 1);
        assert((y + 1) * (w.width + 1) <= (u - 1) * (w.width + 1)) by (nonlinear_arith)
            requires
                y + 1 <= u - 1,
                w.width + 1 >= 1,
        ;
        assert((y + 1) * (w.width + 1) == y * (w.width + 1) + (w.width + 1)) by (nonlinear_arith);
        assert(w.render_upto(u).subrange(lo, lo + w.width) =~= w.render_upto(u - 1).subrange(
            lo,
            lo + w.width,
        ));
    }
}

/// The slice of the whole rendering where row `y`'s glyphs stand.
pub open spec fn rendered_line(w: World, y: int) -> Seq<char> {
    w.render_view().subrange(y * (w.width + 1), y * (w.width + 1) + w.width)
}

/// The character right after row `y`'s glyphs in the whole rendering.
pub open spec fn rendered_line_end(w: World, y: int) -> char {
    w.render_view()[y * (w.width + 1) + w.width]
}

/// The whole rendering is exactly the row renderings in order, one newline
/// after each: row `y` sits verbatim at offset `y * (width + 1)`, its
/// newline right after it, and nothing else is in the text.
pub proof fn lemma_render_holds_each_row(w: World, y: int)
    requires
        0 <= y < w.height,
    ensures
        w.render_view().len() == w.height * (w.width + 1),
        rendered_line(w, y) == w.row_view(y),
        rendered_line_end(w, y) == '\n',
{
    lemma_render_upto_len(w, w.height as int);
    lemma_render_upto_holds_row(w, y, w.height as int);
}

/// On a board with every cell dead, the whole rendering is `height` lines,
/// each `width` copies of the dead glyph followed by its newline.
pub proof fn lemma_dead_board_renders_blank(w: World)
    requires
        forall|x: int, y: int| w.in_bounds(x, y) ==> !w.cell(x, y),
    ensures
        w.render_view().len() == w.height * (w.width + 1),
        forall|y: int|
            0 <= y < w.height ==> #[trigger] rendered_line(w, y) == Seq::new(
                w.width as nat,
                |x: int| '~',
            ) && rendered_line_end(w, y) == '\n',
{
    lemma_render_upto_len(w, w.height as int);
    assert forall|y: int| 0 <= y < w.height implies #[trigger] rendered_line(w, y) == Seq::new(
        w.width as nat,
        |x: int| '~',
    ) && rendered_line_end(w, y) == '\n' by {
        lemma_render_holds_each_row(w, y);
        assert(w.row_view(y) =~= Seq::new(w.width as nat, |x: int| '~'));
    }
}

/// Boards of equal dimensions whose cells agree render identically.
pub proof fn lemma_render_congruent(a: World, b: World)
    requires
        a.width == b.width,
        a.height == b.height,
        forall|x: int, y: int| a.in_bounds(x, y) ==> a.cell(x, y) == b.cell(x, y),
    ensures
        a.render_view() == b.render_view(),
{
    lemma_render_upto_congruent(a, b, a.height as int);
}

proof fn lemma_render_upto_congruent(a: World, b: World, y: int)
    requires
        a.width == b.width,
        a.height == b.height,
        forall|x: int, y2: int| a.in_bounds(x, y2) ==> a.cell(x, y2) == b.cell(x, y2),
        y <= a.height,
    ensures
        a.render_upto(y) == b.render_upto(y),
    decreases y,
{
    if y > 0 {
        lemma_render_upto_congruent(a, b, y - 1);
        assert(a.row_view(y - 1) =~= b.row_view(y - 1));
        assert(a.render_upto(y) =~= b.render_upto(y));
    }
}

/// The generation rule is deterministic: two boards that each hold the
/// successor of the same board render identically.
pub proof fn lemma_next_generation_deterministic(w: World, a: World, b: World)
    requires
        a.width == w.width,
        a.height == w.height,
        forall|x: int, y: int| w.in_bounds(x, y) ==> a.cell(x, y) == w.next_cell(x, y),
        b.width == w.width,
        b.height == w.height,
        forall|x: int, y: int| w.in_bounds(x, y) ==> b.cell(x, y) == w.next_cell(x, y),
    ensures
        a.render_view() == b.render_view(),
{
    lemma_render_congruent(a, b);
}

/// A 2-by-2 block of live cells, alone on the board, is a still life: each
/// block cell keeps exactly 3 live neighbors and survives, every other cell
/// sees at most 2 and stays dead, so one generation step changes nothing.
pub proof fn lemma_block_still_life(w: World, bx: int, by: int)
    requires
        0 <= bx,
        bx + 2 <= w.width,
        0 <= by,
        by + 2 <= w.height,
        forall|x: int, y: int|
            w.in_bounds(x, y) ==> (w.cell(x, y) <==> (bx <= x < bx + 2 && by <= y < by + 2)),
    ensures
        forall|x: int, y: int| w.in_bounds(x, y) ==> w.next_cell(x, y) == w.cell(x, y),
{
    assert forall|x: int, y: int| w.in_bounds(x, y) implies w.next_cell(x, y) == w.cell(x, y) by {
        lemma_block_alive_at(w, bx, by);
    }
}

/// On a board whose live cells are exactly the 2-by-2 block at `(bx, by)`,
/// each neighbor term is `1` exactly for a block member.
proof fn lemma_block_alive_at(w: World, bx: int, by: int)
    requires
        0 <= bx,
        bx + 2 <= w.width,
        0 <= by,
        by + 2 <= w.height,
        forall|x2: int, y2: int|
            w.in_bounds(x2, y2) ==> (w.cell(x2, y2) <==> (bx <= x2 < bx + 2 && by <= y2 < by + 2)),
    ensures
        forall|a: int, b: int|
            #[trigger] w.alive_at(a, b) == (if bx <= a < bx + 2 && by <= b < by + 2 {
                1int
            } else {
                0int
            }),
{
    assert forall|a: int, b: int|
        #[trigger] w.alive_at(a, b) == (if bx <= a < bx + 2 && by <= b < by + 2 {
            1int
        } else {
            0int
        }) by {
        if bx <= a < bx + 2 && by <= b < by + 2 {
            assert(w.in_bounds(a, b));
        }
    }
}

/// The live cells are exactly the vertical 3-cell line in column 1, rows 0
/// to 2, and nothing else.
pub open spec fn vertical_blinker_only(w: World) -> bool {
    forall|x: int, y: int| w.in_bounds(x, y) ==> (w.cell(x, y) <==> (x == 1 && 0 <= y < 3))
}

/// The live cells are exactly the horizontal 3-cell line in row 1, columns
/// 0 to 2, and nothing else.
pub open spec fn horizontal_blinker_only(w: World) -> bool {
    forall|x: int, y: int| w.in_bounds(x, y) ==> (w.cell(x, y) <==> (y == 1 && 0 <= x < 3))
}

/// On a board whose live cells are exactly the vertical blinker, each
/// neighbor term is `1` exactly for a line member.
proof fn lemma_vertical_blinker_alive_at(w: World)
    requires
        w.width >= 3,
        w.height >= 3,
        vertical_blinker_only(w),
    ensures
        forall|a: int, b: int|
            #[trigger] w.alive_at(a, b) == (if a == 1 && 0 <= b < 3 {
                1int
            } else {
                0int
            }),
{
    assert forall|a: int, b: int|
        #[trigger] w.alive_at(a, b) == (if a == 1 && 0 <= b < 3 {
            1int
        } else {
            0int
        }) by {
        if a == 1 && 0 <= b < 3 {
            assert(w.in_bounds(a, b));
        }
    }
}

/// On a board whose live cells are exactly the horizontal blinker, each
/// neighbor term is `1` exactly for a line member.
proof fn lemma_horizontal_blinker_alive_at(w: World)
    requires
        w.width >= 3,
        w.height >= 3,
        horizontal_blinker_only(w),
    ensures
        forall|a: int, b: int|
            #[trigger] w.alive_at(a, b) == (if b == 1 && 0 <= a < 3 {
                1int
            } else {
                0int
            }),
{
    assert forall|a: int, b: int|
        #[trigger] w.alive_at(a, b) == (if b == 1 && 0 <= a < 3 {
            1int
        } else {
            0int
        }) by {
        if b == 1 && 0 <= a < 3 {
            assert(w.in_bounds(a, b));
        }
    }
}

/// One generation step turns the vertical blinker, alone on a board at
/// least 3 wide and 3 tall, into the horizontal blinker.
pub proof fn lemma_blinker_vertical_to_horizontal(w: World)
    requires
        w.width >= 3,
        w.height >= 3,
        vertical_blinker_only(w),
    ensures
        forall|x: int, y: int|
            w.in_bounds(x, y) ==> (w.next_cell(x, y) <==> (y == 1 && 0 <= x < 3)),
{
    assert forall|x: int, y: int| w.in_bounds(x, y) implies (w.next_cell(x, y) <==> (y == 1 && 0
        <= x < 3)) by {
        lemma_vertical_blinker_alive_at(w);
    }
}

/// One generation step turns the horizontal blinker, alone on a board at
/// least 3 wide and 3 tall, back into the vertical blinker.
pub proof fn lemma_blinker_horizontal_to_vertical(w: World)
    requires
        w.width >= 3,
        w.height >= 3,
        horizontal_blinker_only(w),
    ensures
        forall|x: int, y: int|
            w.in_bounds(x, y) ==> (w.next_cell(x, y) <==> (x == 1 && 0 <= y < 3)),
{
    assert forall|x: int, y: int| w.in_bounds(x, y) implies (w.next_cell(x, y) <==> (x == 1 && 0
        <= y < 3)) by {
        lemma_horizontal_blinker_alive_at(w);
    }
}

/// The blinker is a period-2 oscillator: starting from the vertical blinker
/// alone on a board at least 3 wide and 3 tall, two generation steps
/// restore every cell.
pub proof fn lemma_blinker_period_two(w0: World, w1: World, w2: World)
    requires
        w0.width >= 3,
        w0.height >= 3,
        vertical_blinker_only(w0),
        w1.width == w0.width,
        w1.height == w0.height,
        forall|x: int, y: int| w0.in_bounds(x, y) ==> w1.cell(x, y) == w0.next_cell(x, y),
        w2.width == w1.width,
        w2.height == w1.height,
        forall|x: int, y: int| w1.in_bounds(x, y) ==> w2.cell(x, y) == w1.next_cell(x, y),
    ensures
        forall|x: int, y: int| w0.in_bounds(x, y) ==> w2.cell(x, y) == w0.cell(x, y),
{
    lemma_blinker_vertical_to_horizontal(w0);
    assert(horizontal_blinker_only(w1));
    lemma_blinker_horizontal_to_vertical(w1);
}

} // verus!
