//! The tile grid: a fixed-size rectangular mapping from integer coordinates
//! to tiles. Coordinates are `(x, y)` with `x` the column and `y` the row;
//! storage is row-major. The grid never resizes after creation.

use vstd::prelude::*;
use crate::tile::{tile_symbol, tile_symbol_byte, TileType};

verus! {

/// Error of a grid access outside the configured extents. Callers that keep
/// the player's clamp invariant never see it; reaching it signals a logic
/// defect upstream.
#[derive(Clone, Copy, Debug, PartialEq, Eq, Structural)]
pub enum GridError {
    OutOfBounds,
}

/// Index of cell `(x, y)` in row-major storage of a grid `w` cells wide.
pub open spec fn flat_index(x: int, y: int, w: int) -> int {
    y * w + x
}

/// A row-major cell index stays below `w * h` for any in-range coordinate.
pub proof fn lemma_flat_index_bounds(x: int, y: int, w: int, h: int)
    requires
        0 <= x < w,
        0 <= y < h,
    ensures
        0 <= flat_index(x, y, w) < w * h,
{
    assert(0 <= y * w + x && y * w + x < w * h) by (nonlinear_arith)
        requires
            0 <= x < w,
            0 <= y < h,
    ;
}

/// Distinct in-range coordinates never share a row-major cell index.
pub proof fn lemma_flat_index_injective(x1: int, y1: int, x2: int, y2: int, w: int)
    requires
        0 <= x1 < w,
        0 <= x2 < w,
        flat_index(x1, y1, w) == flat_index(x2, y2, w),
    ensures
        x1 == x2,
        y1 == y2,
{
    assert(x1 == x2 && y1 == y2) by (nonlinear_arith)
        requires
            0 <= x1 < w,
            0 <= x2 < w,
            y1 * w + x1 == y2 * w + x2,
    ;
}

/// Owns the 2D array of tiles. Every coordinate in range maps to exactly one
/// tile; see [`TileGrid::wf`].
pub struct TileGrid {
    tiles: Vec<TileType>,
    width: usize,
    height: usize,
}

impl TileGrid {
    /// Number of columns.
    pub closed spec fn spec_width(&self) -> int {
        self.width as int
    }

    /// Number of rows.
    pub closed spec fn spec_height(&self) -> int {
        self.height as int
    }

    /// The tiles in row-major order.
    pub closed spec fn contents(&self) -> Seq<TileType> {
        self.tiles@
    }

    /// Well-formedness: the storage holds one tile for every coordinate, and
    /// the cell count fits the machine's address space.
    pub open spec fn wf(&self) -> bool {
        &&& self.contents().len() == self.spec_width() * self.spec_height()
        &&& self.spec_width() * self.spec_height() <= usize::MAX
    }

    /// Whether `(x, y)` lies inside the configured extents.
    pub open spec fn spec_in_bounds(&self, x: int, y: int) -> bool {
        0 <= x < self.spec_width() && 0 <= y < self.spec_height()
    }

    /// The tile at `(x, y)`.
    pub open spec fn spec_tile(&self, x: int, y: int) -> TileType {
        self.contents()[flat_index(x, y, self.spec_width())]
    }

    /// Creates a `width` by `height` grid with every cell set to `fill`.
    pub fn new_filled(width: usize, height: usize, fill: TileType) -> (g: TileGrid)
        requires
            width * height <= usize::MAX,
        ensures
            g.wf(),
            g.spec_width() == width,
            g.spec_height() == height,
            forall|i: int| 0 <= i < g.contents().len() ==> g.contents()[i] == fill,
    {
        let n: usize = width * height;
        let mut tiles: Vec<TileType> = Vec::new();
        let mut i: usize = 0;
        while i < n
            invariant
                i <= n,
                tiles@.len() == i,
                forall|j: int| 0 <= j < i ==> tiles@[j] == fill,
            decreases n - i,
        {
            tiles.push(fill);
            i += 1;
        }
        TileGrid { tiles, width, height }
    }

    /// Number of columns.
    pub fn width(&self) -> (w: usize)
        ensures
            w == self.spec_width(),
    {
        self.width
    }

    /// Number of rows.
    pub fn height(&self) -> (h: usize)
        ensures
            h == self.spec_height(),
    {
        self.height
    }

    /// Whether `(x, y)` lies inside the configured extents.
    pub fn in_bounds(&self, x: usize, y: usize) -> (b: bool)
        ensures
            b == self.spec_in_bounds(x as int, y as int),
    {
        x < self.width && y < self.height
    }

    /// The tile at `(x, y)`, for callers that have already established the
    /// coordinate is in range.
    pub fn tile_at(&self, x: usize, y: usize) -> (t: TileType)
        requires
            self.wf(),
            self.spec_in_bounds(x as int, y as int),
        ensures
            t == self.spec_tile(x as int, y as int),
    {
        proof {
            lemma_flat_index_bounds(x as int, y as int, self.spec_width(), self.spec_height());
        }
        self.tiles[y * self.width + x]
    }

    /// Overwrites the cell at `(x, y)`, for callers that have already
    /// established the coordinate is in range.
    pub fn set_tile(&mut self, x: usize, y: usize, t: TileType)
        requires
            old(self).wf(),
            old(self).spec_in_bounds(x as int, y as int),
        ensures
            final(self).wf(),
            final(self).spec_width() == old(self).spec_width(),
            final(self).spec_height() == old(self).spec_height(),
            final(self).contents() == old(self).contents().update(
                flat_index(x as int, y as int, old(self).spec_width()),
                t,
            ),
    {
        proof {
            lemma_flat_index_bounds(x as int, y as int, self.spec_width(), self.spec_height());
        }
        self.tiles[y * self.width + x] = t;
    }

    /// The tile at `(x, y)`, or `OutOfBounds` exactly when the coordinate
    /// exceeds the configured dimensions.
    pub fn get(&self, x: usize, y: usize) -> (r: Result<TileType, GridError>)
        requires
            self.wf(),
        ensures
            self.spec_in_bounds(x as int, y as int) ==> r == Ok::<TileType, GridError>(
                self.spec_tile(x as int, y as int),
            ),
            !self.spec_in_bounds(x as int, y as int) ==> r == Err::<TileType, GridError>(
                GridError::OutOfBounds,
            ),
    {
        if x < self.width && y < self.height {
            Ok(self.tile_at(x, y))
        } else {
            Err(GridError::OutOfBounds)
        }
    }

    /// Overwrites the cell at `(x, y)`, or returns `OutOfBounds` exactly when
    /// the coordinate exceeds the configured dimensions; the grid is then
    /// unchanged.
    pub fn set(&mut self, x: usize, y: usize, t: TileType) -> (r: Result<(), GridError>)
        requires
            old(self).wf(),
        ensures
            final(self).wf(),
            final(self).spec_width() == old(self).spec_width(),
            final(self).spec_height() == old(self).spec_height(),
            old(self).spec_in_bounds(x as int, y as int) ==> r == Ok::<(), GridError>(())
                && final(self).contents() == old(self).contents().update(
                flat_index(x as int, y as int, old(self).spec_width()),
                t,
            ),
            !old(self).spec_in_bounds(x as int, y as int) ==> r == Err::<(), GridError>(
                GridError::OutOfBounds,
            ) && final(self).contents() == old(self).contents(),
    {
        if x < self.width && y < self.height {
            self.set_tile(x, y, t);
            Ok(())
        } else {
            Err(GridError::OutOfBounds)
        }
    }

    /// The world state as text: one line of tile symbols per row, top row
    /// first, with a blank line after the last row. `x` runs left to right
    /// within a line, `y` from the first line down.
    pub fn text_dump(&self) -> (out: Vec<u8>)
        requires
            self.wf(),
        ensures
            out@ == spec_text_dump(*self),
    {
        let mut out: Vec<u8> = Vec::new();
        proof {
            assert(out@ =~= rows_dump(*self, 0));
        }
        let mut y: usize = 0;
        while y < self.height
            invariant
                self.wf(),
                y <= self.spec_height(),
                out@ == rows_dump(*self, y as int),
            decreases self.spec_height() - y,
        {
            proof {
                assert(out@ + row_dump(*self, y as int).take(0) =~= out@);
            }
            let mut x: usize = 0;
            while x < self.width
                invariant
                    self.wf(),
                    y < self.spec_height(),
                    x <= self.spec_width(),
                    out@ == rows_dump(*self, y as int) + row_dump(*self, y as int).take(x as int),
                decreases self.spec_width() - x,
            {
                let t = self.tile_at(x, y);
                out.push(tile_symbol_byte(t));
                proof {
                    assert(rows_dump(*self, y as int) + row_dump(*self, y as int).take(x as int + 1)
                        =~= (rows_dump(*self, y as int) + row_dump(*self, y as int).take(
                        x as int,
                    )).push(tile_symbol(t)));
                }
                x = x + 1;
            }
            out.push(10u8);
            proof {
                assert(out@ =~= rows_dump(*self, y as int) + row_dump(*self, y as int));
            }
            y = y + 1;
        }
        out.push(10u8);
        proof {
            assert(out@ =~= spec_text_dump(*self));
        }
        out
    }
}

/// One line of the textual dump: the symbols of row `y`, then a newline.
pub open spec fn row_dump(g: TileGrid, y: int) -> Seq<u8> {
    Seq::new((g.spec_width() + 1) as nat, |i: int|
        if i < g.spec_width() {
            tile_symbol(g.spec_tile(i, y))
        } else {
            10u8  // '\n'
        })
}

/// The first `y` lines of the textual dump.
pub open spec fn rows_dump(g: TileGrid, y: int) -> Seq<u8>
    decreases y,
{
    if y <= 0 {
        Seq::empty()
    } else {
        rows_dump(g, y - 1) + row_dump(g, y - 1)
    }
}

/// The whole textual dump: every row's line, then one blank line.
pub open spec fn spec_text_dump(g: TileGrid) -> Seq<u8> {
    rows_dump(g, g.spec_height()) + seq![10u8]
}

} // verus!
