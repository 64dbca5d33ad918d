//! Procedural world generation: the top rows are left open as an air shaft,
//! and every deeper cell is filled from a seeded random draw: a small
//! chance of treasure, a larger one of copper ore, regolith otherwise. A
//! fixed seed reproduces the same world; production play seeds from entropy.

use vstd::prelude::*;
use crate::grid::{flat_index, lemma_flat_index_bounds, lemma_flat_index_injective, TileGrid};
use crate::tile::{OreGrade, TileType};
use rand::rngs::StdRng;
use rand::RngCore;
use rand::SeedableRng;

verus! {

/// Error of constructing a world too shallow for the open surface layer.
#[derive(Clone, Copy, Debug, PartialEq, Eq, Structural)]
pub enum WorldGenError {
    InvalidDimensions,
}

/// Rows at the top of every world that stay open as the surface air shaft.
pub const SURFACE_ROWS: usize = 3;

/// Declares rand's `StdRng` so a value of it can live in a field; the type
/// stays opaque to the verifier.
#[verifier::external_type_specification]
#[verifier::external_body]
pub struct ExStdRng(StdRng);

/// The `idx`-th draw of the seeded generator. The value is a function of the
/// seed and the position in the draw sequence alone; [`next_draw`] is the one
/// place that ties it to the outside generator.
pub uninterp spec fn draw_at(seed: u64, idx: int) -> u64;

/// A seeded random source together with how far into its draw sequence it
/// stands, so that every draw can be pinned to [`draw_at`].
pub struct WorldRng {
    inner: StdRng,
    seed: Ghost<u64>,
    count: Ghost<int>,
}

/// Relies on rand's `SeedableRng::seed_from_u64` for `StdRng`: builds the
/// generator state from the 64-bit seed alone.
#[verifier::external_body]
fn fresh_std_rng(seed: u64) -> StdRng {
    StdRng::seed_from_u64(seed)
}

impl WorldRng {
    /// The seed this source was built from.
    pub closed spec fn spec_seed(&self) -> u64 {
        self.seed@
    }

    /// How many draws have been taken so far.
    pub closed spec fn spec_count(&self) -> int {
        self.count@
    }

    /// A fresh source at the start of the draw sequence for `seed`.
    pub fn new(seed: u64) -> (r: WorldRng)
        ensures
            r.spec_seed() == seed,
            r.spec_count() == 0,
    {
        WorldRng { inner: fresh_std_rng(seed), seed: Ghost(seed), count: Ghost(0int) }
    }
}

/// Relies on rand's `RngCore::next_u64` on `StdRng`: in the locked rand
/// version `StdRng` is the ChaCha block cipher with 12 rounds on every
/// platform and `seed_from_u64` expands the seed by a fixed arithmetic rule,
/// so the draw sequence is a function of the seed alone.
#[verifier::external_body]
fn next_draw(r: &mut WorldRng) -> (d: u64)
    ensures
        d == draw_at(old(r).spec_seed(), old(r).spec_count()),
        final(r).spec_seed() == old(r).spec_seed(),
        final(r).spec_count() == old(r).spec_count() + 1,
{
    r.inner.next_u64()
}

/// Relies on rand::random: one entropy-seeded draw, of whose value nothing
/// is promised.
pub assume_specification<T>[ rand::random::<T> ]() -> (r: T)
    where
        rand::distributions::Standard: rand::distributions::Distribution<T>,
;

/// The tile a raw draw stands for: per mille, 100 parts treasure, 400 parts
/// copper ore, the remaining 500 regolith.
pub open spec fn classify(draw: u64) -> TileType {
    if draw % 1000 < 100 {
        TileType::Treasure
    } else if draw % 1000 < 500 {
        TileType::Ore(OreGrade::Copper)
    } else {
        TileType::Regolith
    }
}

/// Executable form of [`classify`].
pub fn classify_draw(draw: u64) -> (t: TileType)
    ensures
        t == classify(draw),
{
    let part: u64 = draw % 1000;
    if part < 100 {
        TileType::Treasure
    } else if part < 500 {
        TileType::Ore(OreGrade::Copper)
    } else {
        TileType::Regolith
    }
}

/// The tile the generation rule puts at `(x, y)` for the given seed on a
/// grid `w` cells wide: air in the surface rows, a classified draw below,
/// drawn row by row in row-major order.
pub open spec fn gen_tile(seed: u64, w: int, x: int, y: int) -> TileType {
    if y < SURFACE_ROWS as int {
        TileType::Air
    } else {
        classify(draw_at(seed, (y - SURFACE_ROWS as int) * w + x))
    }
}

/// Fills fresh worlds from a seed.
#[derive(Clone, Copy, Debug, PartialEq, Eq, Structural)]
pub struct WorldGenerator {
    pub seed: u64,
}

impl WorldGenerator {
    /// A generator that reproduces one fixed world per seed.
    pub fn new(seed: u64) -> (g: WorldGenerator)
        ensures
            g.seed == seed,
    {
        WorldGenerator { seed }
    }

    /// A generator seeded from entropy, for production play.
    pub fn from_entropy() -> WorldGenerator {
        WorldGenerator { seed: rand::random::<u64>() }
    }

    /// Generates a `width` by `height` world: the surface rows are air and
    /// every deeper cell matches [`gen_tile`] for this generator's seed.
    /// Fails with `InvalidDimensions` exactly when the grid is too shallow
    /// to hold the surface layer.
    pub fn generate(&self, width: usize, height: usize) -> (r: Result<TileGrid, WorldGenError>)
        requires
            width * height <= usize::MAX,
        ensures
            height > SURFACE_ROWS ==> (r matches Ok(g) && g.wf() && g.spec_width() == width
                && g.spec_height() == height && (forall|x: int, y: int|
                0 <= x < width && 0 <= y < height ==> #[trigger] g.spec_tile(x, y) == gen_tile(
                    self.seed,
                    width as int,
                    x,
                    y,
                ))),
            height <= SURFACE_ROWS ==> r == Err::<TileGrid, WorldGenError>(
                WorldGenError::InvalidDimensions,
            ),
    {
        if height <= SURFACE_ROWS {
            return Err(WorldGenError::InvalidDimensions);
        }
        let seed = self.seed;
        let mut grid = TileGrid::new_filled(width, height, TileType::Air);
        let mut rng = WorldRng::new(seed);
        proof {
            assert forall|i: int, j: int|
                0 <= i < width && 0 <= j < height implies #[trigger] grid.spec_tile(i, j)
                == TileType::Air by {
                lemma_flat_index_bounds(i, j, width as int, height as int);
            }
        }
        let mut y: usize = SURFACE_ROWS;
        while y < height
            invariant
                grid.wf(),
                grid.spec_width() == width,
                grid.spec_height() == height,
                SURFACE_ROWS <= y <= height,
                rng.spec_seed() == seed,
                rng.spec_count() == (y - SURFACE_ROWS) * width,
                forall|i: int, j: int|
                    0 <= i < width && 0 <= j < height ==> #[trigger] grid.spec_tile(i, j) == (
                    if j < y {
                        gen_tile(seed, width as int, i, j)
                    } else {
                        TileType::Air
                    }),
            decreases height - y,
        {
            let mut x: usize = 0;
            while x < width
                invariant
                    grid.wf(),
                    grid.spec_width() == width,
                    grid.spec_height() == height,
                    SURFACE_ROWS <= y < height,
                    0 <= x <= width,
                    rng.spec_seed() == seed,
                    rng.spec_count() == (y - SURFACE_ROWS) * width + x,
                    forall|i: int, j: int|
                        0 <= i < width && 0 <= j < height ==> #[trigger] grid.spec_tile(i, j) == (
                        if j < y || (j == y && i < x) {
                            gen_tile(seed, width as int, i, j)
                        } else {
                            TileType::Air
                        }),
                decreases width - x,
            {
                let d: u64 = next_draw(&mut rng);
                let t = classify_draw(d);
                let ghost prev = grid;
                grid.set_tile(x, y, t);
                proof {
                    lemma_flat_index_bounds(x as int, y as int, width as int, height as int);
                    assert(grid.spec_tile(x as int, y as int) == t);
                    assert(t == gen_tile(seed, width as int, x as int, y as int));
                    assert forall|i: int, j: int|
                        0 <= i < width && 0 <= j < height && !(i == x && j == y) implies #[trigger] grid.spec_tile(
                        i,
                        j,
                    ) == prev.spec_tile(i, j) by {
                        if flat_index(i, j, width as int) == flat_index(
                            x as int,
                            y as int,
                            width as int,
                        ) {
                            lemma_flat_index_injective(i, j, x as int, y as int, width as int);
                        }
                        lemma_flat_index_bounds(i, j, width as int, height as int);
                    }
                }
                x = x + 1;
            }
            proof {
                assert((y - SURFACE_ROWS) * width + width == (y + 1 - SURFACE_ROWS) * width)
                    by (nonlinear_arith);
            }
            y = y + 1;
        }
        Ok(grid)
    }
}

/// Generator determinism: two well-formed grids of one size whose cells both
/// follow the generation rule for one seed hold the same tile sequence; with
/// a fixed seed, repeated generation yields an identical world.
pub proof fn lemma_generate_deterministic(
    g1: TileGrid,
    g2: TileGrid,
    seed: u64,
    width: usize,
    height: usize,
)
    requires
        g1.wf(),
        g2.wf(),
        g1.spec_width() == width,
        g1.spec_height() == height,
        g2.spec_width() == width,
        g2.spec_height() == height,
        forall|x: int, y: int|
            0 <= x < width && 0 <= y < height ==> #[trigger] g1.spec_tile(x, y) == gen_tile(
                seed,
                width as int,
                x,
                y,
            ),
        forall|x: int, y: int|
            0 <= x < width && 0 <= y < height ==> #[trigger] g2.spec_tile(x, y) == gen_tile(
                seed,
                width as int,
                x,
                y,
            ),
    ensures
        g1.contents() == g2.contents(),
{
    let w = width as int;
    let h = height as int;
    if w == 0 || h == 0 {
        assert(g1.contents().len() == 0) by (nonlinear_arith)
            requires
                g1.contents().len() == w * h,
                w == 0 || h == 0,
        ;
        assert(g2.contents().len() == 0) by (nonlinear_arith)
            requires
                g2.contents().len() == w * h,
                w == 0 || h == 0,
        ;
        assert(g1.contents() =~= g2.contents());
    } else {
        assert forall|k: int| 0 <= k < g1.contents().len() implies g1.contents()[k]
            == g2.contents()[k] by {
            let x = k % w;
            let y = k / w;
            vstd::arithmetic::div_mod::lemma_fundamental_div_mod(k, w);
            vstd::arithmetic::div_mod::lemma_mod_bound(k, w);
            assert(0 <= y && y < h) by (nonlinear_arith)
                requires
                    k == w * y + x,
                    0 <= x < w,
                    0 <= k < w * h,
                    w > 0,
            ;
            assert(flat_index(x, y, w) == k);
            assert(g1.contents()[k] == g1.spec_tile(x, y));
            assert(g2.contents()[k] == g2.spec_tile(x, y));
        }
        assert(g1.contents() =~= g2.contents());
    }
}

} // verus!
