//! End-to-end tests of the piece controller: ticking, commands, lock-in,
//! scoring integration and game over.

use tetrs::block::{Block, ShapeKind};
use tetrs::config::{Config, ConfigBuilder};
use tetrs::factory::TetrominoFactory;
use tetrs::game::{Game, GameCommand};
use tetrs::leveling::DefaultLevelingSystem;
use tetrs::scene::SceneResult;
use tetrs::scoring::DefaultScoringSystem;

type DefaultGame = Game<DefaultScoringSystem, DefaultLevelingSystem>;

fn config() -> Config {
    ConfigBuilder::new().build()
}

fn new_game() -> DefaultGame {
    Game::new(config())
}

/// A game whose active piece is of a known kind.
fn game_with(kind: ShapeKind) -> DefaultGame {
    let mut game = new_game();
    game.tetromino = TetrominoFactory::new().create_of_kind(kind, &game.config);
    game
}

fn occupied_cells(game: &DefaultGame) -> Vec<(usize, usize)> {
    let mut cells = Vec::new();
    for r in 0..22 {
        for c in 0..10 {
            if game.grid.boxes[r][c].is_some() {
                cells.push((r, c));
            }
        }
    }
    cells
}

#[test]
fn a_new_session_starts_clean() {
    let game = new_game();
    assert_eq!(game.time, 0);
    assert!(!game.quit);
    assert_eq!(game.score.value(), 0);
    assert_eq!(game.level.level, 1);
    assert_eq!(game.total_lines_cleared, 0);
    assert_eq!((game.tetromino.x, game.tetromino.y), (3, 0));
    assert!(occupied_cells(&game).is_empty());
}

#[test]
fn an_update_before_the_drop_interval_does_not_move_the_piece() {
    let mut game = new_game();
    assert_eq!(game.update(100), SceneResult::Idle);
    assert_eq!(game.tetromino.y, 0);
}

#[test]
fn an_update_at_the_drop_interval_moves_the_piece_one_row() {
    let mut game = new_game();
    assert_eq!(game.update(500), SceneResult::Idle);
    assert_eq!(game.tetromino.y, 1);
}

/// Free fall: ticked at the default drop pacing on an empty field, the
/// piece descends one row per interval and locks exactly where an
/// unobstructed fall to the floor would put it.
#[test]
fn free_fall_locks_the_piece_on_the_floor() {
    let mut game = new_game();

    // Work out the expected resting cells from the spawned piece itself.
    let spawn_blocks = game.tetromino.blocks;
    let mut piece_cells: Vec<(usize, usize)> = Vec::new();
    let mut max_r = 0;
    for r in 0..4 {
        for c in 0..4 {
            if spawn_blocks[r][c].is_some() {
                piece_cells.push((r, c));
                max_r = max_r.max(r);
            }
        }
    }
    let landing_y = 21 - max_r;
    let mut expected: Vec<(usize, usize)> = piece_cells
        .iter()
        .map(|&(r, c)| (landing_y + r, 3 + c))
        .collect();
    expected.sort();

    // 20 drop ticks bring the piece to the floor; a few more elapse the
    // lock delay and lock it. The second piece cannot lock that fast.
    for _ in 0..25 {
        assert_eq!(game.update(500), SceneResult::Idle);
    }

    let locked = occupied_cells(&game);
    assert_eq!(locked, expected);
}

/// Hard-dropping pieces without ever clearing a line must eventually
/// block the spawn cell, and the following tick reports game over.
#[test]
fn stacking_to_the_spawn_buffer_ends_the_game() {
    let mut game = new_game();
    let mut over = false;
    for _ in 0..100 {
        game.handle_command(GameCommand::HardDrop);
        if game.update(0) == SceneResult::GameOver {
            over = true;
            break;
        }
    }
    assert!(over, "the stack never reached the spawn buffer");
    // Game over comes from a piece blocked inside the hidden buffer.
    assert!(game.tetromino.y <= 0);
}

#[test]
fn soft_drop_forces_one_descent() {
    let mut game = new_game();
    game.handle_command(GameCommand::SoftDrop);
    assert_eq!(game.tetromino.y, 1);
    game.handle_command(GameCommand::SoftDrop);
    assert_eq!(game.tetromino.y, 2);
}

#[test]
fn hard_drop_locks_at_the_landing_position() {
    let mut game = game_with(ShapeKind::O);
    game.handle_command(GameCommand::HardDrop);

    let locked = occupied_cells(&game);
    assert_eq!(locked, vec![(20, 4), (20, 5), (21, 4), (21, 5)]);
    // A fresh piece spawned at the top.
    assert_eq!((game.tetromino.x, game.tetromino.y), (3, 0));
    // Nothing was cleared, so nothing was scored.
    assert_eq!(game.score.value(), 0);
    assert_eq!(game.total_lines_cleared, 0);
}

#[test]
fn move_commands_shift_the_piece_sideways() {
    let mut game = game_with(ShapeKind::O);
    game.handle_command(GameCommand::MoveLeft);
    assert_eq!(game.tetromino.x, 2);
    game.handle_command(GameCommand::MoveRight);
    game.handle_command(GameCommand::MoveRight);
    assert_eq!(game.tetromino.x, 4);
}

#[test]
fn the_piece_stops_at_the_walls() {
    let mut game = game_with(ShapeKind::O);
    // The O piece occupies its box's columns 1 and 2: from x = 3 it can
    // move left four times (to x = -1), then the wall denies the move.
    for _ in 0..10 {
        game.handle_command(GameCommand::MoveLeft);
    }
    assert_eq!(game.tetromino.x, -1);
    for _ in 0..10 {
        game.handle_command(GameCommand::MoveRight);
    }
    assert_eq!(game.tetromino.x, 7);
}

#[test]
fn rotate_commands_turn_the_piece() {
    let mut game = game_with(ShapeKind::I);
    let original = game.tetromino.blocks;
    game.handle_command(GameCommand::RotateCw);
    assert_ne!(game.tetromino.blocks, original);
    game.handle_command(GameCommand::RotateCcw);
    assert_eq!(game.tetromino.blocks, original);
}

#[test]
fn quit_returns_to_the_main_menu() {
    let mut game = new_game();
    assert_eq!(game.handle_command(GameCommand::Quit), SceneResult::MainMenu);
    // A pending quit also surfaces from the update tick.
    assert_eq!(game.update(0), SceneResult::MainMenu);
}

#[test]
fn pause_reports_the_pause_scene() {
    let mut game = new_game();
    assert_eq!(game.handle_command(GameCommand::Pause), SceneResult::PauseGame);
    // Pausing does not touch the simulation.
    assert_eq!(game.tetromino.y, 0);
    assert_eq!(game.time, 0);
}

#[test]
fn completing_a_row_scores_and_counts_the_line() {
    let mut game = game_with(ShapeKind::I);
    // Fill the bottom row except the columns the flat I will cover.
    let filler = Some(Block::new(ShapeKind::J, false));
    for c in 0..10 {
        if !(3..7).contains(&c) {
            game.grid.boxes[21][c] = filler;
        }
    }

    game.handle_command(GameCommand::HardDrop);

    assert_eq!(game.total_lines_cleared, 1);
    assert_eq!(game.score.value(), 100);
    assert_eq!(game.level.level, 1);
    // The completed row is gone.
    assert!(occupied_cells(&game).is_empty());
}

#[test]
fn reset_restores_a_fresh_session() {
    let mut game = game_with(ShapeKind::O);
    game.handle_command(GameCommand::HardDrop);
    game.handle_command(GameCommand::Quit);
    game.update(700);

    game.reset();
    assert_eq!(game.time, 0);
    assert!(!game.quit);
    assert_eq!(game.score.value(), 0);
    assert_eq!(game.level.level, 1);
    assert_eq!(game.total_lines_cleared, 0);
    assert!(occupied_cells(&game).is_empty());
    assert_eq!((game.tetromino.x, game.tetromino.y), (3, 0));
}

#[test]
fn the_overlay_follows_the_active_piece_each_tick() {
    let mut game = game_with(ShapeKind::I);
    game.update(500);
    // After one drop the I piece occupies row 2, columns 3..=6, and the
    // overlay shows exactly that.
    assert_eq!(game.tetromino.y, 1);
    for c in 3..7 {
        assert_eq!(game.grid.overlay[2][c], Some(Block::new(ShapeKind::I, false)));
        assert_eq!(game.grid.boxes[2][c], None);
    }
}
