//! The piece controller: the in-game state machine that owns the field,
//! the active piece, the pacing timers and the score/level counters.
//!
//! Each simulation tick (`update`) advances the clock, drops or locks the
//! active piece, and rebuilds the render overlay. Discrete input commands
//! (`handle_command`) move and rotate the piece through the same legality
//! checks. The only fatal outcome is game over: a piece blocked while
//! still inside the hidden spawn buffer.

use vstd::prelude::*;

use crate::config::{Config, MIN_DROP_TIME_MS};
use crate::factory::{is_spawn_piece, TetrominoFactory};
use crate::grid::{
    cleared_view, is_landing_y, lemma_landing_unique, overlay_cells, row_empty,
    spec_cleared_count, stored_view, Grid,
};
use crate::leveling::{Level, LevelMetaData, LevelingSystem};
use crate::scene::SceneResult;
use crate::scoring::{Score, ScoreMetaData, ScoringSystem};
use crate::tetromino::{
    blocks_clear, field_wf, grid_view, rotated_dir, spec_x_dir, Direction, MoveResult, Rotation,
    RotationResult, Tetromino,
};
use crate::timer::Timer;

verus! {

/// The abstract input commands the controller consumes; mapping raw key
/// events to these belongs to the excluded input layer.
#[derive(Copy, Clone, PartialEq, Eq, Structural, Debug)]
pub enum GameCommand {
    MoveLeft,
    MoveRight,
    RotateCw,
    RotateCcw,
    SoftDrop,
    HardDrop,
    Pause,
    Quit,
}

/// The next drop interval once `level` is reached: the base interval
/// shortened by one factor per level, clamped to stay positive.
pub open spec fn spec_drop_interval(config: Config, level: u32) -> u64 {
    if (level as int) * (config.drop_factor_ms as int) < (config.drop_time_ms as int) {
        (config.drop_time_ms - (level as int) * (config.drop_factor_ms as int)) as u64
    } else {
        MIN_DROP_TIME_MS
    }
}

pub struct Game<S: ScoringSystem, L: LevelingSystem> {
    /// Simulation time in milliseconds, advanced once per update tick.
    pub time: u64,
    pub config: Config,
    pub quit: bool,
    pub grid: Grid,
    /// Lock-delay: the grace period between a piece becoming blocked and
    /// its lock-in.
    pub lockstep_timer: Timer,
    /// Paces the automatic descent.
    pub drop_timer: Timer,
    pub scoring_system: S,
    pub score: Score,
    pub leveling_system: L,
    pub level: Level,
    pub total_lines_cleared: u32,
    pub tetromino: Tetromino,
    pub tetromino_factory: TetrominoFactory,
}

impl<S: ScoringSystem, L: LevelingSystem> Game<S, L> {
    pub open spec fn wf(self) -> bool {
        &&& self.config.wf()
        &&& self.grid.wf()
        &&& self.tetromino.wf()
    }

    /// The active piece can descend one more row.
    pub open spec fn south_clear(self) -> bool {
        blocks_clear(
            self.tetromino.blocks,
            grid_view(&self.grid.boxes),
            self.tetromino.x as int,
            self.tetromino.y + 1,
        )
    }

    /// The downward move is due: the drop timer has fired, or a drop was
    /// forced this tick.
    pub open spec fn drop_ready(self, force: bool) -> bool {
        force || self.drop_timer.spec_elapsed(self.time)
    }

    /// Lock-in is due: the lock-delay timer has fired, or a lock was
    /// forced.
    pub open spec fn lock_ready(self, force: bool) -> bool {
        force || self.lockstep_timer.spec_elapsed(self.time)
    }

    /// The fatal state: the piece cannot descend and still sits at the
    /// top of the hidden spawn buffer.
    pub open spec fn game_over_now(self) -> bool {
        !self.south_clear() && self.tetromino.y <= 0
    }

    /// The state after the clock advances by `delta_ms` (saturating).
    pub open spec fn with_time(self, delta_ms: u64) -> Game<S, L> {
        Game {
            time: if self.time + delta_ms <= u64::MAX {
                (self.time + delta_ms) as u64
            } else {
                u64::MAX
            },
            ..self
        }
    }

    /// The state after one downward step: the piece one row lower, both
    /// pacing timers restarted relative to the current time.
    pub open spec fn dropped(self) -> Game<S, L> {
        Game {
            tetromino: Tetromino { y: (self.tetromino.y + 1) as i32, ..self.tetromino },
            drop_timer: self.drop_timer.spec_reset(self.time, None),
            lockstep_timer: self.lockstep_timer.spec_reset(self.time, None),
            ..self
        }
    }

    /// The lock-in transition: the piece is stored into the field,
    /// complete lines are cleared, the line count feeds the scoring and
    /// leveling policies, a fresh random piece spawns, the lock-delay
    /// timer stops and the drop timer restarts with the interval for the
    /// (possibly raised) level.
    pub open spec fn lock_transition(pre: Game<S, L>, post: Game<S, L>) -> bool {
        let stored = stored_view(grid_view(&pre.grid.boxes), pre.tetromino);
        let lines = spec_cleared_count(stored) as u32;
        let new_total = if pre.total_lines_cleared + lines <= u32::MAX {
            (pre.total_lines_cleared + lines) as u32
        } else {
            u32::MAX
        };
        &&& grid_view(&post.grid.boxes) == cleared_view(stored)
        &&& grid_view(&post.grid.overlay) == grid_view(&pre.grid.overlay)
        &&& post.total_lines_cleared == new_total
        &&& post.score.points() == pre.scoring_system.spec_score(pre.score.points(), lines)
        &&& post.level.level == pre.leveling_system.spec_level(
            pre.level.level,
            LevelMetaData { lines_cleared: lines, total_lines_cleared: new_total },
        )
        &&& post.lockstep_timer == (Timer { started: false, ..pre.lockstep_timer })
        &&& post.drop_timer == pre.drop_timer.spec_reset(
            pre.time,
            Some(spec_drop_interval(pre.config, post.level.level)),
        )
        &&& is_spawn_piece(post.tetromino)
        &&& post.time == pre.time
        &&& post.config == pre.config
        &&& post.quit == pre.quit
        &&& post.scoring_system == pre.scoring_system
        &&& post.leveling_system == pre.leveling_system
        &&& post.tetromino_factory == pre.tetromino_factory
    }

    /// What happens when the piece cannot descend: lock in if the
    /// lock-delay has fired (or the lock is forced), otherwise wait.
    pub open spec fn blocked_rel(pre: Game<S, L>, post: Game<S, L>, force: bool) -> bool {
        if pre.lock_ready(force) {
            Self::lock_transition(pre, post)
        } else {
            post == pre
        }
    }

    /// One downward evaluation: with room below, the piece drops exactly
    /// when due; blocked inside the spawn buffer it signals game over and
    /// changes nothing; blocked lower down it follows the lock-in path.
    pub open spec fn move_down_rel(
        pre: Game<S, L>,
        post: Game<S, L>,
        force_drop: bool,
        r: SceneResult,
    ) -> bool {
        if pre.south_clear() {
            &&& r == SceneResult::Idle
            &&& if pre.drop_ready(force_drop) {
                post == pre.dropped()
            } else {
                post == pre
            }
        } else if pre.tetromino.y <= 0 {
            &&& r == SceneResult::GameOver
            &&& post == pre
        } else {
            &&& r == SceneResult::Idle
            &&& Self::blocked_rel(pre, post, false)
        }
    }

    /// `post` is `mid` with just the overlay rebuilt from `mid`'s active
    /// piece (ghost included where enabled).
    pub open spec fn overlay_refreshed(mid: Game<S, L>, post: Game<S, L>) -> bool {
        &&& post == (Game {
            grid: Grid { boxes: mid.grid.boxes, overlay: post.grid.overlay },
            ..mid
        })
        &&& field_wf(grid_view(&post.grid.overlay))
        &&& !mid.config.shadow_enabled ==> overlay_cells(
            mid.tetromino,
            grid_view(&post.grid.overlay),
            false,
            0,
        )
        &&& mid.config.shadow_enabled ==> forall|ly: int| is_landing_y(
            mid.tetromino,
            grid_view(&mid.grid.boxes),
            ly,
        ) ==> overlay_cells(mid.tetromino, grid_view(&post.grid.overlay), true, ly)
    }

    /// One update tick: the clock advances, the downward evaluation runs,
    /// and — unless it ended the game — the overlay is rebuilt and the
    /// pending quit request (if any) is reported.
    pub open spec fn update_rel(
        pre: Game<S, L>,
        post: Game<S, L>,
        delta_ms: u64,
        r: SceneResult,
    ) -> bool {
        let timed = pre.with_time(delta_ms);
        if timed.game_over_now() {
            r == SceneResult::GameOver && post == timed
        } else {
            exists|mid: Game<S, L>|
                {
                    &&& #[trigger] Self::move_down_rel(timed, mid, false, SceneResult::Idle)
                    &&& Self::overlay_refreshed(mid, post)
                    &&& r == (if mid.quit {
                        SceneResult::MainMenu
                    } else {
                        SceneResult::Idle
                    })
                }
        }
    }

    /// The piece as it stands after committing the rotation `rot`.
    pub open spec fn rotated_piece(t: Tetromino, rot: Rotation) -> Tetromino {
        Tetromino {
            blocks: t.layout(rotated_dir(t.dir(), rot)),
            shadow: t.shadow_layout(rotated_dir(t.dir(), rot)),
            direction: rotated_dir(t.dir(), rot),
            ..t
        }
    }

    /// A rotation command: committed exactly when the target layout fits
    /// the field on empty cells, rejected with no state change otherwise.
    pub open spec fn rotate_rel(pre: Game<S, L>, post: Game<S, L>, rot: Rotation) -> bool {
        let t = pre.tetromino;
        if blocks_clear(
            t.layout(rotated_dir(t.dir(), rot)),
            grid_view(&pre.grid.boxes),
            t.x as int,
            t.y as int,
        ) {
            post == (Game { tetromino: Self::rotated_piece(t, rot), ..pre })
        } else {
            post == pre
        }
    }

    /// A sideways command: denied (no-op) if the move would leave the
    /// field; the piece shifts one column if the target cells are clear;
    /// pressed against a locked stack it locks in at once.
    pub open spec fn side_rel(pre: Game<S, L>, post: Game<S, L>, d: Direction) -> bool {
        let t = pre.tetromino;
        if t.move_off_sides(d) {
            post == pre
        } else if blocks_clear(
            t.blocks,
            grid_view(&pre.grid.boxes),
            t.x + spec_x_dir(d),
            t.y as int,
        ) {
            post == (Game {
                tetromino: Tetromino { x: (t.x + spec_x_dir(d)) as i32, ..t },
                ..pre
            })
        } else {
            Self::lock_transition(pre, post)
        }
    }

    /// A hard drop: the piece falls to its landing row and locks in at
    /// once, regardless of the lock-delay timer.
    pub open spec fn hard_drop_rel(pre: Game<S, L>, post: Game<S, L>) -> bool {
        forall|ly: int| is_landing_y(pre.tetromino, grid_view(&pre.grid.boxes), ly)
            ==> Self::lock_transition(
            Game { tetromino: Tetromino { y: ly as i32, ..pre.tetromino }, ..pre },
            post,
        )
    }

    /// The result a command reports: a pending quit request sends play
    /// back to the main menu, otherwise play continues.
    pub open spec fn tail_result(post: Game<S, L>) -> SceneResult {
        if post.quit {
            SceneResult::MainMenu
        } else {
            SceneResult::Idle
        }
    }

    /// What each command does, as a relation between the state before and
    /// after it.
    pub open spec fn command_rel(
        pre: Game<S, L>,
        post: Game<S, L>,
        command: GameCommand,
        r: SceneResult,
    ) -> bool {
        match command {
            GameCommand::Pause => post == pre && r == SceneResult::PauseGame,
            GameCommand::Quit => post == (Game { quit: true, ..pre }) && r
                == SceneResult::MainMenu,
            GameCommand::RotateCw => Self::rotate_rel(pre, post, Rotation::Clockwise) && r
                == Self::tail_result(post),
            GameCommand::RotateCcw => Self::rotate_rel(pre, post, Rotation::CounterClockwise) && r
                == Self::tail_result(post),
            GameCommand::MoveLeft => Self::side_rel(pre, post, Direction::West) && r
                == Self::tail_result(post),
            GameCommand::MoveRight => Self::side_rel(pre, post, Direction::East) && r
                == Self::tail_result(post),
            GameCommand::SoftDrop => (exists|r0: SceneResult| #[trigger] Self::move_down_rel(
                pre,
                post,
                true,
                r0,
            )) && r == Self::tail_result(post),
            GameCommand::HardDrop => Self::hard_drop_rel(pre, post) && r == Self::tail_result(
                post,
            ),
        }
    }

    /// A session at its start: clock at zero, empty field, both timers
    /// fresh from the configured intervals, zero score, level one, no
    /// lines cleared, a fresh random piece at the spawn position.
    pub open spec fn fresh_session(g: Game<S, L>, config: Config) -> bool {
        &&& g.config == config
        &&& g.time == 0
        &&& !g.quit
        &&& forall|r: int| 0 <= r < 22 ==> row_empty(#[trigger] grid_view(&g.grid.boxes)[r])
        &&& forall|r: int| 0 <= r < 22 ==> row_empty(#[trigger] grid_view(&g.grid.overlay)[r])
        &&& g.lockstep_timer == Timer::spec_fresh(config.lock_step_time_ms)
        &&& g.drop_timer == Timer::spec_fresh(config.drop_time_ms)
        &&& g.score.points() == 0
        &&& g.level.level == 1
        &&& g.total_lines_cleared == 0
        &&& is_spawn_piece(g.tetromino)
    }

    /// The drop interval for `level` under `config`.
    fn drop_interval(config: &Config, level: u32) -> (iv: u64)
        ensures
            iv == spec_drop_interval(*config, level),
    {
        let lvl = level as u128;
        let fac = config.drop_factor_ms as u128;
        proof {
            assert(lvl * fac <= (u32::MAX as u128) * (u64::MAX as u128)) by (nonlinear_arith)
                requires
                    0 <= lvl <= u32::MAX as u128,
                    0 <= fac <= u64::MAX as u128,
            ;
        }
        let reduction = lvl * fac;
        if reduction < config.drop_time_ms as u128 {
            config.drop_time_ms - (reduction as u64)
        } else {
            MIN_DROP_TIME_MS
        }
    }

    /// Advances the simulation clock (saturating at the clock's maximum).
    fn update_time(&mut self, delta_ms: u64)
        ensures
            *final(self) == old(self).with_time(delta_ms),
    {
        self.time = self.time.saturating_add(delta_ms);
    }

    /// Locks the active piece into the field and spawns a fresh one.
    fn new_tetromino(&mut self)
        requires
            old(self).wf(),
        ensures
            final(self).wf(),
            grid_view(&final(self).grid.boxes) == stored_view(
                grid_view(&old(self).grid.boxes),
                old(self).tetromino,
            ),
            final(self).grid.overlay == old(self).grid.overlay,
            is_spawn_piece(final(self).tetromino),
            final(self).time == old(self).time,
            final(self).config == old(self).config,
            final(self).quit == old(self).quit,
            final(self).lockstep_timer == old(self).lockstep_timer,
            final(self).drop_timer == old(self).drop_timer,
            final(self).scoring_system == old(self).scoring_system,
            final(self).score == old(self).score,
            final(self).leveling_system == old(self).leveling_system,
            final(self).level == old(self).level,
            final(self).total_lines_cleared == old(self).total_lines_cleared,
            final(self).tetromino_factory == old(self).tetromino_factory,
    {
        self.grid.store_tetromino(&self.tetromino);
        self.tetromino = self.tetromino_factory.create(&self.config);
        proof {
            assert(grid_view(&self.grid.boxes) =~~= stored_view(
                grid_view(&old(self).grid.boxes),
                old(self).tetromino,
            ));
        }
    }

    /// The blocked path: once the lock-delay has fired (or the lock is
    /// forced), the piece locks in, lines clear, the scoring and leveling
    /// policies run, and descent resumes at the pace of the new level.
    fn handle_blocked(&mut self, force: bool)
        requires
            old(self).wf(),
        ensures
            final(self).wf(),
            Self::blocked_rel(*old(self), *final(self), force),
    {
        if self.lockstep_timer.elapsed(self.time) || force {
            let ghost stored = stored_view(grid_view(&old(self).grid.boxes), old(self).tetromino);

            // Store the tetromino in the grid and create a new tetromino.
            self.new_tetromino();
            self.lockstep_timer.stop();
            let lines_cleared = self.grid.remove_complete_lines(&self.config);
            proof {
                assert(grid_view(&self.grid.boxes) =~~= cleared_view(stored));
            }
            self.total_lines_cleared = self.total_lines_cleared.saturating_add(lines_cleared);

            self.scoring_system.update_score(
                &mut self.score,
                ScoreMetaData { lines_cleared },
            );
            self.leveling_system.process(
                &mut self.level,
                LevelMetaData {
                    lines_cleared,
                    total_lines_cleared: self.total_lines_cleared,
                },
            );

            let interval = Self::drop_interval(&self.config, self.level.level);
            let now = self.time;
            self.drop_timer.reset(now, Some(interval));
        }
    }

    /// One downward evaluation of the active piece, as `move_down_rel`
    /// describes.
    fn move_down(&mut self, force_drop: bool) -> (r: SceneResult)
        requires
            old(self).wf(),
        ensures
            final(self).wf(),
            Self::move_down_rel(*old(self), *final(self), force_drop, r),
    {
        match self.tetromino.can_move(Direction::South, &self.grid.boxes) {
            MoveResult::Allow => {
                if self.drop_timer.elapsed(self.time) || force_drop {
                    self.tetromino.drop_down();
                    let now = self.time;
                    self.drop_timer.reset(now, None);
                    self.lockstep_timer.reset(now, None);
                }
            },
            MoveResult::Blocked => {
                if self.tetromino.y <= 0 {
                    // We've hit the top.
                    return SceneResult::GameOver;
                } else {
                    self.handle_blocked(false);
                }
            },
            MoveResult::Deny => {
                proof {
                    assert(!old(self).tetromino.move_off_sides(Direction::South));
                }
            },
        }

        SceneResult::Idle
    }

    /// Drops the active piece straight down to its landing row, without
    /// locking it.
    fn drop_tetromino(&mut self)
        requires
            old(self).wf(),
        ensures
            final(self).wf(),
            *final(self) == (Game { tetromino: final(self).tetromino, ..*old(self) }),
            final(self).tetromino == (Tetromino {
                y: final(self).tetromino.y,
                ..old(self).tetromino
            }),
            is_landing_y(
                old(self).tetromino,
                grid_view(&old(self).grid.boxes),
                final(self).tetromino.y as int,
            ),
    {
        loop
            invariant
                self.wf(),
                *self == (Game { tetromino: self.tetromino, ..*old(self) }),
                self.tetromino == (Tetromino { y: self.tetromino.y, ..old(self).tetromino }),
                old(self).tetromino.y <= self.tetromino.y <= 21,
                forall|yy: int| old(self).tetromino.y < yy <= self.tetromino.y ==> blocks_clear(
                    old(self).tetromino.blocks,
                    grid_view(&old(self).grid.boxes),
                    old(self).tetromino.x as int,
                    yy,
                ),
            decreases 21 - self.tetromino.y,
        {
            if let MoveResult::Allow = self.tetromino.can_move(Direction::South, &self.grid.boxes) {
                self.tetromino.drop_down();
            } else {
                return ;
            }
        }
    }

    /// One update tick, as `update_rel` describes: advance the clock,
    /// evaluate the descent, rebuild the overlay, report game over or a
    /// pending quit request.
    pub fn update(&mut self, delta_ms: u64) -> (r: SceneResult)
        requires
            old(self).wf(),
        ensures
            final(self).wf(),
            Self::update_rel(*old(self), *final(self), delta_ms, r),
    {
        // Update the global game time.
        self.update_time(delta_ms);

        // Drop the current block if it needs dropping.
        let res = self.move_down(false);
        if let SceneResult::GameOver = res {
            return SceneResult::GameOver;
        }
        let ghost mid = *self;

        // Apply the currently active tetromino into the grid.
        self.grid.apply_tetromino(&self.tetromino, &self.config);

        proof {
            assert(Self::move_down_rel(
                old(self).with_time(delta_ms),
                mid,
                false,
                SceneResult::Idle,
            ));
            assert(Self::overlay_refreshed(mid, *self));
        }

        if self.quit {
            SceneResult::MainMenu
        } else {
            SceneResult::Idle
        }
    }

    /// One input command, as `command_rel` describes.
    pub fn handle_command(&mut self, command: GameCommand) -> (r: SceneResult)
        requires
            old(self).wf(),
        ensures
            final(self).wf(),
            Self::command_rel(*old(self), *final(self), command, r),
    {
        match command {
            GameCommand::Quit => {
                self.quit = true;
            },
            GameCommand::Pause => {
                return SceneResult::PauseGame;
            },
            GameCommand::RotateCcw => {
                if let RotationResult::Allow = self.tetromino.can_rotate(
                    Rotation::CounterClockwise,
                    &self.grid.boxes,
                ) {
                    self.tetromino.rotate(Rotation::CounterClockwise);
                }
            },
            GameCommand::RotateCw => {
                if let RotationResult::Allow = self.tetromino.can_rotate(
                    Rotation::Clockwise,
                    &self.grid.boxes,
                ) {
                    self.tetromino.rotate(Rotation::Clockwise);
                }
            },
            GameCommand::MoveLeft => {
                match self.tetromino.can_move(Direction::West, &self.grid.boxes) {
                    MoveResult::Allow => self.tetromino.move_left(),
                    MoveResult::Blocked => self.handle_blocked(true),
                    MoveResult::Deny => {},
                }
            },
            GameCommand::MoveRight => {
                match self.tetromino.can_move(Direction::East, &self.grid.boxes) {
                    MoveResult::Allow => self.tetromino.move_right(),
                    MoveResult::Blocked => self.handle_blocked(true),
                    MoveResult::Deny => {},
                }
            },
            GameCommand::SoftDrop => {
                let res = self.move_down(true);
                proof {
                    assert(Self::move_down_rel(*old(self), *self, true, res));
                }
            },
            GameCommand::HardDrop => {
                self.drop_tetromino();
                let ghost dropped = *self;
                // Lock in straight away, regardless of the lock-delay.
                self.handle_blocked(true);
                proof {
                    assert forall|ly: int| is_landing_y(
                        old(self).tetromino,
                        grid_view(&old(self).grid.boxes),
                        ly,
                    ) implies Self::lock_transition(
                        Game {
                            tetromino: Tetromino { y: ly as i32, ..old(self).tetromino },
                            ..*old(self)
                        },
                        *self,
                    ) by {
                        lemma_landing_unique(
                            old(self).tetromino,
                            grid_view(&old(self).grid.boxes),
                            ly,
                            dropped.tetromino.y as int,
                        );
                        assert((Game {
                            tetromino: Tetromino { y: ly as i32, ..old(self).tetromino },
                            ..*old(self)
                        }) == dropped);
                    }
                }
            },
        }

        if self.quit {
            SceneResult::MainMenu
        } else {
            SceneResult::Idle
        }
    }
}

impl Game<crate::scoring::DefaultScoringSystem, crate::leveling::DefaultLevelingSystem> {
    /// A new session with the default scoring and leveling policies.
    pub fn new(config: Config) -> (g: Game<
        crate::scoring::DefaultScoringSystem,
        crate::leveling::DefaultLevelingSystem,
    >)
        requires
            config.wf(),
        ensures
            g.wf(),
            Self::fresh_session(g, config),
    {
        let factory = TetrominoFactory::new();
        let tetromino = factory.create(&config);

        Game {
            time: 0,
            config,
            quit: false,
            grid: Grid::new(),
            lockstep_timer: Timer::new(config.lock_step_time_ms),
            drop_timer: Timer::new(config.drop_time_ms),
            scoring_system: crate::scoring::DefaultScoringSystem,
            score: Score::new(),
            leveling_system: crate::leveling::DefaultLevelingSystem,
            level: Level::new(),
            total_lines_cleared: 0,
            tetromino,
            tetromino_factory: factory,
        }
    }
}

impl<S: ScoringSystem, L: LevelingSystem> Game<S, L> {
    /// Restarts the session: fresh field, timers, counters and piece,
    /// keeping the configuration and the policies.
    pub fn reset(&mut self)
        requires
            old(self).wf(),
        ensures
            final(self).wf(),
            Self::fresh_session(*final(self), old(self).config),
            final(self).scoring_system == old(self).scoring_system,
            final(self).leveling_system == old(self).leveling_system,
    {
        self.time = 0;
        self.quit = false;
        self.grid = Grid::new();
        self.lockstep_timer = Timer::new(self.config.lock_step_time_ms);
        self.drop_timer = Timer::new(self.config.drop_time_ms);
        self.score = Score::new();
        self.level = Level::new();
        self.total_lines_cleared = 0;
        self.tetromino = self.tetromino_factory.create(&self.config);
    }
}

} // verus!
