use motherload::command::{Command, CommandState};
use motherload::grid::TileGrid;
use motherload::player::Player;
use motherload::sim::{simulation_step, SimState, Simulation, TerminationReason};
use motherload::tile::TileType;

fn commands_with(held: &[Command]) -> CommandState {
    let mut cs = CommandState::new();
    for c in held {
        cs.set_held(*c, true);
    }
    cs
}

#[test]
fn treasure_run() {
    // A 3x3 world of regolith with treasure buried at (1, 1): moving right
    // then down mines both cells, costs 20 fuel and scores 10 + 500.
    let mut grid = TileGrid::new_filled(3, 3, TileType::Regolith);
    grid.set(1, 1, TileType::Treasure).unwrap();
    let mut player = Player::new();
    assert_eq!(player.fuel, 100);
    assert_eq!(player.score, 0);

    let right = commands_with(&[Command::Right]);
    let out = simulation_step(&right, &mut grid, &mut player);
    assert_eq!(out, SimState::Running);
    assert_eq!((player.x, player.y), (1, 0));
    assert_eq!(player.fuel, 90);
    assert_eq!(player.score, 10);
    assert_eq!(grid.get(1, 0).unwrap(), TileType::Air);

    let down = commands_with(&[Command::Down]);
    let out = simulation_step(&down, &mut grid, &mut player);
    assert_eq!(out, SimState::Running);
    assert_eq!((player.x, player.y), (1, 1));
    assert_eq!(player.fuel, 80);
    assert_eq!(player.score, 510);
    assert_eq!(grid.get(1, 1).unwrap(), TileType::Air);
}

#[test]
fn bounds_hold_under_any_commands() {
    // Hammering movement commands in every combination never pushes the
    // player outside [0, width - 1) x [0, height - 1).
    let mut grid = TileGrid::new_filled(4, 5, TileType::Air);
    let mut player = Player::new();
    player.fuel = u64::MAX; // never runs dry during the walk
    let dirs = [Command::Left, Command::Right, Command::Up, Command::Down];
    let mut n: u32 = 0;
    for a in dirs {
        for b in dirs {
            let cs = commands_with(&[a, b]);
            simulation_step(&cs, &mut grid, &mut player);
            assert!(player.x < 3, "x out of playable range");
            assert!(player.y < 4, "y out of playable range");
            n += 1;
        }
    }
    assert_eq!(n, 16);
}

#[test]
fn fuel_unchanged_when_standing_still() {
    let mut grid = TileGrid::new_filled(3, 4, TileType::Air);
    let mut player = Player::new();
    let idle = CommandState::new();
    simulation_step(&idle, &mut grid, &mut player);
    assert_eq!(player.fuel, 100);
}

#[test]
fn fuel_drops_by_exactly_ten_per_move() {
    let mut grid = TileGrid::new_filled(5, 5, TileType::Air);
    let mut player = Player::new();
    let right = commands_with(&[Command::Right]);
    simulation_step(&right, &mut grid, &mut player);
    assert_eq!(player.fuel, 90);
    simulation_step(&right, &mut grid, &mut player);
    assert_eq!(player.fuel, 80);
}

#[test]
fn opposing_commands_cancel() {
    // Left and Right held together yield no movement and no fuel cost.
    let mut grid = TileGrid::new_filled(5, 5, TileType::Air);
    let mut player = Player::new();
    player.x = 2;
    player.y = 2;
    let cs = commands_with(&[Command::Left, Command::Right]);
    simulation_step(&cs, &mut grid, &mut player);
    assert_eq!((player.x, player.y), (2, 2));
    assert_eq!(player.fuel, 100);
}

#[test]
fn blocked_move_at_edge_costs_nothing() {
    // Pressing Left at the left edge clamps to no movement, so no fuel is
    // spent.
    let mut grid = TileGrid::new_filled(5, 5, TileType::Air);
    let mut player = Player::new();
    let cs = commands_with(&[Command::Left]);
    simulation_step(&cs, &mut grid, &mut player);
    assert_eq!((player.x, player.y), (0, 0));
    assert_eq!(player.fuel, 100);
}

#[test]
fn mining_idempotent_when_stationary() {
    // Standing on a cell mines it once; the next tick adds nothing and the
    // cell stays air.
    let mut grid = TileGrid::new_filled(3, 4, TileType::Regolith);
    let mut player = Player::new();
    let idle = CommandState::new();
    simulation_step(&idle, &mut grid, &mut player);
    assert_eq!(player.score, 10);
    assert_eq!(grid.get(0, 0).unwrap(), TileType::Air);
    simulation_step(&idle, &mut grid, &mut player);
    assert_eq!(player.score, 10);
    assert_eq!(grid.get(0, 0).unwrap(), TileType::Air);
}

#[test]
fn out_of_fuel_after_one_costing_move() {
    // With fuel for exactly one move, the first tick that changes position
    // ends the game with OutOfFuel.
    let mut grid = TileGrid::new_filled(4, 4, TileType::Air);
    let mut player = Player { x: 0, y: 0, fuel: 10, score: 0 };
    let right = commands_with(&[Command::Right]);
    let out = simulation_step(&right, &mut grid, &mut player);
    assert_eq!(player.fuel, 0);
    assert_eq!(out, SimState::Terminated(TerminationReason::OutOfFuel));
}

#[test]
fn exit_takes_precedence_over_movement() {
    // Exit and a movement command in the same tick: the game quits and
    // neither position, fuel, score nor the grid changes.
    let mut grid = TileGrid::new_filled(4, 4, TileType::Regolith);
    let mut player = Player::new();
    let cs = commands_with(&[Command::Exit, Command::Right]);
    let out = simulation_step(&cs, &mut grid, &mut player);
    assert_eq!(out, SimState::Terminated(TerminationReason::PlayerQuit));
    assert_eq!((player.x, player.y), (0, 0));
    assert_eq!(player.fuel, 100);
    assert_eq!(player.score, 0);
    assert_eq!(grid.get(0, 0).unwrap(), TileType::Regolith);
}

#[test]
fn terminated_simulation_absorbs_ticks() {
    // Once the machine is terminated, further ticks change nothing even
    // with movement commands held.
    let mut grid = TileGrid::new_filled(4, 4, TileType::Regolith);
    let mut player = Player::new();
    let mut sim = Simulation::new();
    assert!(sim.is_running());

    let quit = commands_with(&[Command::Exit]);
    sim.tick(&quit, &mut grid, &mut player);
    assert_eq!(sim.state(), SimState::Terminated(TerminationReason::PlayerQuit));
    assert!(!sim.is_running());

    let right = commands_with(&[Command::Right]);
    sim.tick(&right, &mut grid, &mut player);
    assert_eq!(sim.state(), SimState::Terminated(TerminationReason::PlayerQuit));
    assert_eq!((player.x, player.y), (0, 0));
    assert_eq!(player.fuel, 100);
    assert_eq!(player.score, 0);
    assert_eq!(grid.get(0, 0).unwrap(), TileType::Regolith);
}

#[test]
fn mining_happens_even_on_the_out_of_fuel_tick() {
    // The tile entered on the final move is still mined before the game
    // ends.
    let mut grid = TileGrid::new_filled(4, 4, TileType::Regolith);
    let mut player = Player { x: 0, y: 0, fuel: 10, score: 0 };
    let right = commands_with(&[Command::Right]);
    let out = simulation_step(&right, &mut grid, &mut player);
    assert_eq!(out, SimState::Terminated(TerminationReason::OutOfFuel));
    assert_eq!(player.score, 10);
    assert_eq!(grid.get(1, 0).unwrap(), TileType::Air);
}
