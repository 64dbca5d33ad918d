//! The per-tick simulation step: applies movement from the command state,
//! resolves mining against the grid, updates the player, and evaluates
//! termination. One call is one tick; the driving loop runs one tick per
//! frame and stops once the state is terminal.

use vstd::prelude::*;
use crate::command::CommandState;
use crate::grid::{flat_index, lemma_flat_index_bounds, TileGrid};
use crate::player::{Player, MOVE_COST};
use crate::tile::{tile_points, tile_value, TileType};

verus! {

/// Why a game ended.
#[derive(Clone, Copy, Debug, PartialEq, Eq, Structural)]
pub enum TerminationReason {
    PlayerQuit,
    OutOfFuel,
}

/// State of the tick/turn machine. Both terminal reasons are absorbing: once
/// `Terminated`, no further tick changes anything (see [`Simulation::tick`]).
#[derive(Clone, Copy, Debug, PartialEq, Eq, Structural)]
pub enum SimState {
    Running,
    Terminated(TerminationReason),
}

/// Net horizontal offset of one tick: opposite commands held together cancel.
pub open spec fn move_dx(cs: CommandState) -> int {
    (if cs.right {
        1int
    } else {
        0int
    }) - (if cs.left {
        1int
    } else {
        0int
    })
}

/// Net vertical offset of one tick; `Down` grows `y`.
pub open spec fn move_dy(cs: CommandState) -> int {
    (if cs.down {
        1int
    } else {
        0int
    }) - (if cs.up {
        1int
    } else {
        0int
    })
}

/// Clamps a candidate coordinate to the playable range `[0, dim - 2]`; the
/// grid's last row and column lie outside it.
pub open spec fn clamp_coord(v: int, dim: int) -> int {
    if v < 0 {
        0
    } else if v > dim - 2 {
        dim - 2
    } else {
        v
    }
}

/// The column the player occupies after one tick of `cs`.
pub open spec fn next_x(cs: CommandState, x: int, width: int) -> int {
    clamp_coord(x + move_dx(cs), width)
}

/// The row the player occupies after one tick of `cs`.
pub open spec fn next_y(cs: CommandState, y: int, height: int) -> int {
    clamp_coord(y + move_dy(cs), height)
}

/// Fuel left after one tick: the movement cost if the position changed
/// (never below zero in storage), unchanged otherwise.
pub open spec fn fuel_after(fuel: u64, moved: bool) -> u64 {
    if moved {
        if fuel >= MOVE_COST {
            (fuel - MOVE_COST) as u64
        } else {
            0u64
        }
    } else {
        fuel
    }
}

/// Score with `delta` added, saturating at the counter's capacity.
pub open spec fn score_plus(score: u64, delta: u64) -> u64 {
    if score + delta <= u64::MAX {
        (score + delta) as u64
    } else {
        u64::MAX
    }
}

/// Everything one tick does, as a relation between the world before
/// (`g0`, `p0`) and after (`g1`, `p1`, `out`), for a grid of `w` by `h`
/// cells. `Exit` short-circuits the whole tick; otherwise the player moves
/// one clamped step, pays fuel if the position changed, mines the cell it
/// lands on (the cell turns to air and its value is scored), and the tick
/// ends the game exactly when the fuel is gone.
pub open spec fn step_post(
    cs: CommandState,
    g0: Seq<TileType>,
    p0: Player,
    w: int,
    h: int,
    g1: Seq<TileType>,
    p1: Player,
    out: SimState,
) -> bool {
    if cs.exit {
        &&& g1 == g0
        &&& p1 == p0
        &&& out == SimState::Terminated(TerminationReason::PlayerQuit)
    } else {
        let nx = next_x(cs, p0.x as int, w);
        let ny = next_y(cs, p0.y as int, h);
        let moved = nx != p0.x as int || ny != p0.y as int;
        let idx = flat_index(nx, ny, w);
        &&& p1.x == nx
        &&& p1.y == ny
        &&& p1.fuel == fuel_after(p0.fuel, moved)
        &&& p1.score == score_plus(p0.score, tile_value(g0[idx]))
        &&& g1 == g0.update(idx, TileType::Air)
        &&& out == (if p1.fuel == 0 {
            SimState::Terminated(TerminationReason::OutOfFuel)
        } else {
            SimState::Running
        })
    }
}

/// Runs one tick: movement from `commands`, mining against `grid`, fuel and
/// score accounting on `player`, and the termination verdict as the result.
pub fn simulation_step(commands: &CommandState, grid: &mut TileGrid, player: &mut Player) -> (out:
    SimState)
    requires
        old(grid).wf(),
        old(grid).spec_width() >= 2,
        old(grid).spec_height() >= 2,
        old(player).in_bounds(old(grid).spec_width(), old(grid).spec_height()),
    ensures
        final(grid).wf(),
        final(grid).spec_width() == old(grid).spec_width(),
        final(grid).spec_height() == old(grid).spec_height(),
        final(player).in_bounds(old(grid).spec_width(), old(grid).spec_height()),
        step_post(
            *commands,
            old(grid).contents(),
            *old(player),
            old(grid).spec_width(),
            old(grid).spec_height(),
            final(grid).contents(),
            *final(player),
            out,
        ),
{
    if commands.exit {
        return SimState::Terminated(TerminationReason::PlayerQuit);
    }
    let w: usize = grid.width();
    let h: usize = grid.height();

    let mut nx: usize = player.x;
    if commands.right && !commands.left {
        if nx < w - 2 {
            nx = nx + 1;
        }
    } else if commands.left && !commands.right {
        if nx > 0 {
            nx = nx - 1;
        }
    }
    let mut ny: usize = player.y;
    if commands.down && !commands.up {
        if ny < h - 2 {
            ny = ny + 1;
        }
    } else if commands.up && !commands.down {
        if ny > 0 {
            ny = ny - 1;
        }
    }

    let moved = nx != player.x || ny != player.y;
    if moved {
        player.fuel = if player.fuel >= MOVE_COST {
            player.fuel - MOVE_COST
        } else {
            0
        };
    }
    player.x = nx;
    player.y = ny;

    let tile = grid.tile_at(nx, ny);
    let delta: u64 = tile_points(tile);
    player.score = if player.score <= u64::MAX - delta {
        player.score + delta
    } else {
        u64::MAX
    };
    grid.set_tile(nx, ny, TileType::Air);

    if player.fuel == 0 {
        SimState::Terminated(TerminationReason::OutOfFuel)
    } else {
        SimState::Running
    }
}

/// The tick/turn state machine around [`simulation_step`]. Its one job is to
/// make the terminal states absorbing: a tick on a terminated simulation
/// changes nothing.
pub struct Simulation {
    state: SimState,
}

impl Simulation {
    /// The machine's current state.
    pub closed spec fn spec_state(&self) -> SimState {
        self.state
    }

    /// A fresh simulation, ready to run.
    pub fn new() -> (s: Simulation)
        ensures
            s.spec_state() == SimState::Running,
    {
        Simulation { state: SimState::Running }
    }

    /// The machine's current state.
    pub fn state(&self) -> (s: SimState)
        ensures
            s == self.spec_state(),
    {
        self.state
    }

    /// Whether further ticks will be processed.
    pub fn is_running(&self) -> (b: bool)
        ensures
            b == (self.spec_state() is Running),
    {
        match self.state {
            SimState::Running => true,
            SimState::Terminated(_) => false,
        }
    }

    /// Processes one tick while running; once terminated, leaves the grid,
    /// the player and the state untouched.
    pub fn tick(&mut self, commands: &CommandState, grid: &mut TileGrid, player: &mut Player)
        requires
            old(self).spec_state() is Running ==> old(grid).wf() && old(grid).spec_width() >= 2
                && old(grid).spec_height() >= 2 && old(player).in_bounds(
                old(grid).spec_width(),
                old(grid).spec_height(),
            ),
        ensures
            final(grid).spec_width() == old(grid).spec_width(),
            final(grid).spec_height() == old(grid).spec_height(),
            old(self).spec_state() is Terminated ==> final(self).spec_state() == old(
                self,
            ).spec_state() && final(grid).contents() == old(grid).contents() && *final(player)
                == *old(player),
            old(self).spec_state() is Running ==> final(grid).wf() && final(player).in_bounds(
                old(grid).spec_width(),
                old(grid).spec_height(),
            ) && step_post(
                *commands,
                old(grid).contents(),
                *old(player),
                old(grid).spec_width(),
                old(grid).spec_height(),
                final(grid).contents(),
                *final(player),
                final(self).spec_state(),
            ),
    {
        let running = match self.state {
            SimState::Running => true,
            SimState::Terminated(_) => false,
        };
        if running {
            self.state = simulation_step(commands, grid, player);
        }
    }
}

/// The position reached from `(x, y)` after ticking through every command
/// state in `cmds`, front to back, on a `w` by `h` grid.
pub open spec fn path_after(cmds: Seq<CommandState>, x: int, y: int, w: int, h: int) -> (int, int)
    decreases cmds.len(),
{
    if cmds.len() == 0 {
        (x, y)
    } else {
        path_after(cmds.drop_first(), next_x(cmds[0], x, w), next_y(cmds[0], y, h), w, h)
    }
}

/// Bounds invariant: under every sequence of command states, a position that
/// starts inside the playable range `[0, w - 1) x [0, h - 1)` is inside it
/// again after every tick. Since `cmds` is arbitrary, this covers every
/// prefix of a longer run.
pub proof fn lemma_bounds_invariant(cmds: Seq<CommandState>, x: int, y: int, w: int, h: int)
    requires
        w >= 2,
        h >= 2,
        0 <= x <= w - 2,
        0 <= y <= h - 2,
    ensures
        ({
            let p = path_after(cmds, x, y, w, h);
            0 <= p.0 <= w - 2 && 0 <= p.1 <= h - 2
        }),
    decreases cmds.len(),
{
    if cmds.len() > 0 {
        lemma_bounds_invariant(
            cmds.drop_first(),
            next_x(cmds[0], x, w),
            next_y(cmds[0], y, h),
            w,
            h,
        );
    }
}

/// Fuel monotonicity: a tick never increases fuel, and with at least one
/// move's worth of fuel left, fuel is unchanged exactly when the position is
/// unchanged and drops by exactly the movement cost otherwise.
pub proof fn lemma_fuel_monotonic(
    cs: CommandState,
    g0: Seq<TileType>,
    p0: Player,
    w: int,
    h: int,
    g1: Seq<TileType>,
    p1: Player,
    out: SimState,
)
    requires
        step_post(cs, g0, p0, w, h, g1, p1, out),
    ensures
        p1.fuel <= p0.fuel,
        p0.fuel >= MOVE_COST ==> (if p1.x == p0.x && p1.y == p0.y {
            p1.fuel == p0.fuel
        } else {
            p1.fuel == p0.fuel - MOVE_COST
        }),
{
}

/// Score monotonicity: a tick never decreases the score.
pub proof fn lemma_score_monotonic(
    cs: CommandState,
    g0: Seq<TileType>,
    p0: Player,
    w: int,
    h: int,
    g1: Seq<TileType>,
    p1: Player,
    out: SimState,
)
    requires
        step_post(cs, g0, p0, w, h, g1, p1, out),
    ensures
        p1.score >= p0.score,
{
}

/// Mining idempotence: of two consecutive ticks with the player stationary
/// over one cell, the first awards the cell's value and turns it to air; the
/// second adds no score and leaves the grid unchanged.
pub proof fn lemma_mining_idempotent(
    cs: CommandState,
    g0: Seq<TileType>,
    p0: Player,
    w: int,
    h: int,
    g1: Seq<TileType>,
    p1: Player,
    out1: SimState,
    g2: Seq<TileType>,
    p2: Player,
    out2: SimState,
)
    requires
        w >= 2,
        h >= 2,
        p0.in_bounds(w, h),
        g0.len() == w * h,
        !cs.exit,
        next_x(cs, p0.x as int, w) == p0.x as int,
        next_y(cs, p0.y as int, h) == p0.y as int,
        step_post(cs, g0, p0, w, h, g1, p1, out1),
        step_post(cs, g1, p1, w, h, g2, p2, out2),
    ensures
        p1.score == score_plus(
            p0.score,
            tile_value(g0[flat_index(p0.x as int, p0.y as int, w)]),
        ),
        g1[flat_index(p0.x as int, p0.y as int, w)] == TileType::Air,
        p2.score == p1.score,
        g2 == g1,
{
    let idx = flat_index(p0.x as int, p0.y as int, w);
    lemma_flat_index_bounds(p0.x as int, p0.y as int, w, h);
    assert(g1 == g0.update(idx, TileType::Air));
    assert(g1[idx] == TileType::Air);
    assert(p1.x == p0.x && p1.y == p0.y);
    assert(next_x(cs, p1.x as int, w) == p1.x as int);
    assert(next_y(cs, p1.y as int, h) == p1.y as int);
    assert(g2 =~= g1);
}

/// Termination reachability: with exactly one move's worth of fuel left, a
/// tick whose commands change the position ends the game with `OutOfFuel`.
pub proof fn lemma_out_of_fuel(
    cs: CommandState,
    g0: Seq<TileType>,
    p0: Player,
    w: int,
    h: int,
    g1: Seq<TileType>,
    p1: Player,
    out: SimState,
)
    requires
        step_post(cs, g0, p0, w, h, g1, p1, out),
        !cs.exit,
        p0.fuel == MOVE_COST,
        next_x(cs, p0.x as int, w) != p0.x as int || next_y(cs, p0.y as int, h) != p0.y as int,
    ensures
        out == SimState::Terminated(TerminationReason::OutOfFuel),
{
}

/// Exit precedence: when `Exit` is held, the tick ends the game with
/// `PlayerQuit` and neither the position, the fuel, the score nor the grid
/// changes, whatever movement commands are held beside it.
pub proof fn lemma_exit_precedence(
    cs: CommandState,
    g0: Seq<TileType>,
    p0: Player,
    w: int,
    h: int,
    g1: Seq<TileType>,
    p1: Player,
    out: SimState,
)
    requires
        step_post(cs, g0, p0, w, h, g1, p1, out),
        cs.exit,
    ensures
        out == SimState::Terminated(TerminationReason::PlayerQuit),
        p1 == p0,
        g1 == g0,
{
}

} // verus!
