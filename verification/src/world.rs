//! The grid engine: a `width` x `height` board of live and dead cells in
//! row-major packed bit storage, with point access, neighbor counting under
//! edge truncation, the B3/S23 generation rule, and text rendering.

use vstd::prelude::*;

use crate::bits;
use crate::bits::bits_of;
use crate::text;

verus! {

/// A rectangular board of cells. Cell `(x, y)` lives at row-major index
/// `y * width + x`; every access requires `x < width` and `y < height`.
pub struct World {
    pub width: usize,
    pub height: usize,
    pub data: bit_vec::BitVec,
}

/// `y * w + x` stays below `w * h` for in-bounds `(x, y)`.
pub proof fn lemma_index_in_range(x: int, y: int, w: int, h: int)
    requires
        0 <= x < w,
        0 <= y < h,
    ensures
        0 <= y * w + x < w * h,
{
    assert(y * w + x < w * h) by (nonlinear_arith)
        requires
            0 <= x < w,
            0 <= y < h,
    ;
}

/// Row-major indexing is injective on in-bounds coordinates.
pub proof fn lemma_index_injective(x1: int, y1: int, x2: int, y2: int, w: int)
    requires
        0 <= x1 < w,
        0 <= x2 < w,
        0 <= y1,
        0 <= y2,
        y1 * w + x1 == y2 * w + x2,
    ensures
        x1 == x2,
        y1 == y2,
{
    assert(x1 == x2 && y1 == y2) by (nonlinear_arith)
        requires
            0 <= x1 < w,
            0 <= x2 < w,
            0 <= y1,
            0 <= y2,
            y1 * w + x1 == y2 * w + x2,
    ;
}

impl World {
    /// The board's cells as one row-major sequence.
    pub open spec fn grid(self) -> Seq<bool> {
        bits_of(self.data)
    }

    /// The storage holds exactly `width * height` cells, and that count is
    /// representable, so every row-major index can be computed.
    pub open spec fn wf(self) -> bool {
        &&& self.grid().len() == self.width * self.height
        &&& self.width * self.height <= usize::MAX
    }

    /// Whether `(x, y)` lies on the board.
    pub open spec fn in_bounds(self, x: int, y: int) -> bool {
        0 <= x < self.width && 0 <= y < self.height
    }

    /// The row-major index of `(x, y)`.
    pub open spec fn index_of(self, x: int, y: int) -> int {
        y * self.width + x
    }

    /// Whether the cell at in-bounds `(x, y)` is alive.
    pub open spec fn cell(self, x: int, y: int) -> bool {
        self.grid()[self.index_of(x, y)]
    }

    /// A board of the given dimensions with every cell dead.
    pub fn new(width: usize, height: usize) -> (w: World)
        requires
            width * height <= usize::MAX,
        ensures
            w.wf(),
            w.width == width,
            w.height == height,
            forall|x: int, y: int| w.in_bounds(x, y) ==> !w.cell(x, y),
    {
        let w = World { width, height, data: bits::bits_new(width * height) };
        proof {
            assert forall|x: int, y: int| w.in_bounds(x, y) implies !w.cell(x, y) by {
                lemma_index_in_range(x, y, width as int, height as int);
            }
        }
        w
    }

    /// Reads the cell at `(x, y)`.
    pub fn get(&self, x: usize, y: usize) -> (alive: bool)
        requires
            self.wf(),
            x < self.width,
            y < self.height,
        ensures
            alive == self.cell(x as int, y as int),
    {
        proof {
            lemma_index_in_range(x as int, y as int, self.width as int, self.height as int);
        }
        let i = y * self.width + x;
        bits::bits_get(&self.data, i).unwrap()
    }

    /// Writes the cell at `(x, y)` and leaves every other cell alone.
    pub fn set(&mut self, x: usize, y: usize, alive: bool)
        requires
            old(self).wf(),
            x < old(self).width,
            y < old(self).height,
        ensures
            final(self).wf(),
            final(self).width == old(self).width,
            final(self).height == old(self).height,
            final(self).grid() == old(self).grid().update(
                old(self).index_of(x as int, y as int),
                alive,
            ),
            final(self).cell(x as int, y as int) == alive,
            forall|i: int, j: int|
                old(self).in_bounds(i, j) && !(i == x && j == y) ==> final(self).cell(i, j)
                    == old(self).cell(i, j),
    {
        proof {
            lemma_index_in_range(x as int, y as int, self.width as int, self.height as int);
        }
        let i = y * self.width + x;
        bits::bits_set(&mut self.data, i, alive);
        proof {
            assert forall|i2: int, j2: int|
                old(self).in_bounds(i2, j2) && !(i2 == x && j2 == y) implies self.cell(i2, j2)
                == old(self).cell(i2, j2) by {
                lemma_index_in_range(i2, j2, self.width as int, self.height as int);
                if j2 * self.width as int + i2 == y as int * self.width as int + x as int {
                    lemma_index_injective(i2, j2, x as int, y as int, self.width as int);
                }
            }
        }
    }
    /// `1` when `(x, y)` is on the board and alive, else `0`. Off-board
    /// coordinates contribute nothing: the edge truncates, it never wraps.
    pub open spec fn alive_at(self, x: int, y: int) -> int {
        if self.in_bounds(x, y) && self.cell(x, y) {
            1
        } else {
            0
        }
    }

    /// How many of the 8 Moore neighbors of `(x, y)` are alive, counting a
    /// neighbor that falls off an edge as absent.
    pub open spec fn neighbor_count(self, x: int, y: int) -> int {
        self.alive_at(x - 1, y - 1) + self.alive_at(x, y - 1) + self.alive_at(x + 1, y - 1)
            + self.alive_at(x - 1, y) + self.alive_at(x + 1, y) + self.alive_at(x - 1, y + 1)
            + self.alive_at(x, y + 1) + self.alive_at(x + 1, y + 1)
    }

    /// The B3/S23 rule at `(x, y)`: a live cell survives on 2 or 3 live
    /// neighbors, a dead cell is born on exactly 3, all else is dead.
    pub open spec fn next_cell(self, x: int, y: int) -> bool {
        if self.cell(x, y) {
            2 <= self.neighbor_count(x, y) <= 3
        } else {
            self.neighbor_count(x, y) == 3
        }
    }

    /// Counts the live Moore neighbors of `(x, y)` under edge truncation.
    pub fn count_neighbors(&self, x: usize, y: usize) -> (n: u8)
        requires
            self.wf(),
            x < self.width,
            y < self.height,
        ensures
            n as int == self.neighbor_count(x as int, y as int),
            n <= 8,
    {
        let mut n: u8 = 0;
        if x > 0 && y > 0 && self.get(x - 1, y - 1) {
            n = n + 1;
        }
        if y > 0 && self.get(x, y - 1) {
            n = n + 1;
        }
        if x + 1 < self.width && y > 0 && self.get(x + 1, y - 1) {
            n = n + 1;
        }
        if x > 0 && self.get(x - 1, y) {
            n = n + 1;
        }
        if x + 1 < self.width && self.get(x + 1, y) {
            n = n + 1;
        }
        if x > 0 && y + 1 < self.height && self.get(x - 1, y + 1) {
            n = n + 1;
        }
        if y + 1 < self.height && self.get(x, y + 1) {
            n = n + 1;
        }
        if x + 1 < self.width && y + 1 < self.height && self.get(x + 1, y + 1) {
            n = n + 1;
        }
        n
    }

    /// One generation step: a fresh board of the same dimensions whose every
    /// cell follows the B3/S23 rule applied to this board. This board is
    /// only read, never changed.
    pub fn next_generation(&self) -> (next: World)
        requires
            self.wf(),
        ensures
            next.wf(),
            next.width == self.width,
            next.height == self.height,
            forall|x: int, y: int| self.in_bounds(x, y) ==> next.cell(x, y) == self.next_cell(x, y),
    {
        let mut next = World::new(self.width, self.height);
        for y in 0..self.height
            invariant
                self.wf(),
                next.wf(),
                next.width == self.width,
                next.height == self.height,
                forall|i: int, j: int|
                    0 <= i < self.width && 0 <= j < y ==> next.cell(i, j) == self.next_cell(i, j),
        {
            for x in 0..self.width
                invariant
                    self.wf(),
                    next.wf(),
                    next.width == self.width,
                    next.height == self.height,
                    y < self.height,
                    forall|i: int, j: int|
                        0 <= i < self.width && 0 <= j < y ==> next.cell(i, j) == self.next_cell(
                            i,
                            j,
                        ),
                    forall|i: int|
                        0 <= i < x ==> next.cell(i, y as int) == self.next_cell(i, y as int),
            {
                let alive = self.get(x, y);
                let n = self.count_neighbors(x, y);
                let alive_next = if alive {
                    n >= 2 && n <= 3
                } else {
                    n == 3
                };
                next.set(x, y, alive_next);
            }
        }
        next
    }

    /// Stamps a block of rows onto the board: cell `(x0 + i, y0 + j)` takes
    /// `rows[j][i]`, and every cell outside the stamped spans is unchanged.
    /// Rows may differ in length; each must fit on the board.
    pub fn set_rows(&mut self, x0: usize, y0: usize, rows: &Vec<Vec<bool>>)
        requires
            old(self).wf(),
            y0 + rows@.len() <= old(self).height,
            forall|j: int| 0 <= j < rows@.len() ==> x0 + rows@[j]@.len() <= old(self).width,
        ensures
            final(self).wf(),
            final(self).width == old(self).width,
            final(self).height == old(self).height,
            forall|i: int, j: int|
                old(self).in_bounds(i, j) ==> final(self).cell(i, j) == (if y0 <= j < y0
                    + rows@.len() && x0 <= i < x0 + rows@[j - y0]@.len() {
                    rows@[j - y0]@[i - x0]
                } else {
                    old(self).cell(i, j)
                }),
    {
        let ghost w0 = *old(self);
        for j in 0..rows.len()
            invariant
                self.wf(),
                self.width == w0.width,
                self.height == w0.height,
                y0 + rows@.len() <= w0.height,
                forall|j2: int| 0 <= j2 < rows@.len() ==> x0 + rows@[j2]@.len() <= w0.width,
                forall|i2: int, j2: int|
                    w0.in_bounds(i2, j2) ==> self.cell(i2, j2) == (if y0 <= j2 < y0 + j && x0 <= i2
                        < x0 + rows@[j2 - y0]@.len() {
                        rows@[j2 - y0]@[i2 - x0]
                    } else {
                        w0.cell(i2, j2)
                    }),
        {
            let row = &rows[j];
            for i in 0..row.len()
                invariant
                    self.wf(),
                    self.width == w0.width,
                    self.height == w0.height,
                    j < rows@.len(),
                    row == rows@[j as int],
                    y0 + rows@.len() <= w0.height,
                    forall|j2: int| 0 <= j2 < rows@.len() ==> x0 + rows@[j2]@.len() <= w0.width,
                    forall|i2: int, j2: int|
                        w0.in_bounds(i2, j2) ==> self.cell(i2, j2) == (if y0 <= j2 < y0 + j && x0
                            <= i2 < x0 + rows@[j2 - y0]@.len() {
                            rows@[j2 - y0]@[i2 - x0]
                        } else {
                            if j2 == y0 + j && x0 <= i2 < x0 + i {
                                rows@[j as int]@[i2 - x0]
                            } else {
                                w0.cell(i2, j2)
                            }
                        }),
            {
                self.set(x0 + i, y0 + j, row[i]);
            }
        }
    }

    /// The character a cell renders as: `#` alive, `~` dead.
    pub open spec fn glyph(alive: bool) -> char {
        if alive {
            '#'
        } else {
            '~'
        }
    }

    /// The rendering of row `y`: one glyph per column, left to right.
    pub open spec fn row_view(self, y: int) -> Seq<char> {
        Seq::new(self.width as nat, |x: int| World::glyph(self.cell(x, y)))
    }

    /// The rendering of the first `y` rows, top to bottom, each row followed
    /// by one newline.
    pub open spec fn render_upto(self, y: int) -> Seq<char>
        decreases y,
    {
        if y <= 0 {
            Seq::empty()
        } else {
            self.render_upto(y - 1) + self.row_view(y - 1).push('\n')
        }
    }

    /// The rendering of the whole board: every row in order, each followed
    /// by one newline.
    pub open spec fn render_view(self) -> Seq<char> {
        self.render_upto(self.height as int)
    }

    /// Renders row `y` as a string of exactly `width` glyphs.
    pub fn render_row(&self, y: usize) -> (s: String)
        requires
            self.wf(),
            y < self.height,
        ensures
            s@ == self.row_view(y as int),
    {
        let mut s = String::new();
        for x in 0..self.width
            invariant
                self.wf(),
                y < self.height,
                s@ == self.row_view(y as int).take(x as int),
        {
            let c = if self.get(x, y) {
                '#'
            } else {
                '~'
            };
            text::push_char(&mut s, c);
            proof {
                assert(s@ =~= self.row_view(y as int).take(x + 1));
            }
        }
        proof {
            assert(self.row_view(y as int).take(self.width as int) =~= self.row_view(y as int));
        }
        s
    }

    /// Renders the whole board: `height` lines of `width` glyphs, each line
    /// closed by one newline and nothing else between or after them.
    pub fn render(&self) -> (s: String)
        requires
            self.wf(),
        ensures
            s@ == self.render_view(),
    {
        let mut s = String::new();
        for y in 0..self.height
            invariant
                self.wf(),
                s@ == self.render_upto(y as int),
        {
            let row = self.render_row(y);
            text::push_str_onto(&mut s, row.as_str());
            text::push_char(&mut s, '\n');
            proof {
                assert(s@ =~= self.render_upto(y + 1));
            }
        }
        s
    }
}

} // verus!
