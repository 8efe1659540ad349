//! Immutable simulation parameters, constructed once before a game session
//! starts. Only what the simulation itself reads lives here: grid
//! dimensions, the pacing intervals (in milliseconds) and the ghost-piece
//! flag. Presentation parameters (tile size, offsets, colours) belong to
//! the rendering layer outside this crate.

use vstd::prelude::*;

verus! {

/// Number of columns of the playing field.
pub const GRID_COLS: u32 = 10;

/// Number of rows of the playing field, the top `HIDDEN_ROWS` of which are
/// the spawn buffer and are not rendered.
pub const GRID_ROWS: u32 = 22;

/// Rows at the top of the field reserved as the spawn buffer.
pub const HIDDEN_ROWS: u32 = 2;

/// Base interval between automatic drops, in milliseconds.
pub const DROP_TIME_MS: u64 = 500;

/// Grace period between a piece becoming blocked and its lock-in.
pub const LOCK_STEP_TIME_MS: u64 = 500;

/// Reduction of the drop interval per level, in milliseconds.
pub const DROP_FACTOR_MS: u64 = 100;

/// Smallest drop interval: the per-level speed-up never pushes the drop
/// interval below this, keeping it positive at every level.
pub const MIN_DROP_TIME_MS: u64 = 50;

#[derive(Copy, Clone, Debug)]
pub struct Config {
    /// Playing-field dimensions as (columns, rows).
    pub grid_size: (u32, u32),
    /// Base interval between automatic drops, in milliseconds.
    pub drop_time_ms: u64,
    /// Lock-delay interval, in milliseconds.
    pub lock_step_time_ms: u64,
    /// Per-level reduction of the drop interval, in milliseconds.
    pub drop_factor_ms: u64,
    /// Whether the ghost (landing-preview) piece is drawn into the overlay.
    pub shadow_enabled: bool,
}

impl Config {
    /// A well-formed configuration describes the canonical playing field
    /// that the engine's fixed collision bounds assume.
    pub open spec fn wf(self) -> bool {
        self.grid_size.0 == GRID_COLS && self.grid_size.1 == GRID_ROWS
    }
}

pub struct ConfigBuilder {
    g_size: (u32, u32),
    drop_time_ms: u64,
    lock_step_time_ms: u64,
    drop_factor_ms: u64,
    shadow_enabled: bool,
}

impl ConfigBuilder {
    /// Starts from the canonical defaults: a 10x22 field, 500 ms drop and
    /// lock-delay intervals, 100 ms of speed-up per level, ghost disabled.
    pub fn new() -> (b: ConfigBuilder)
        ensures
            b.spec_build().wf(),
            b.spec_build() == (Config {
                grid_size: (GRID_COLS, GRID_ROWS),
                drop_time_ms: DROP_TIME_MS,
                lock_step_time_ms: LOCK_STEP_TIME_MS,
                drop_factor_ms: DROP_FACTOR_MS,
                shadow_enabled: false,
            }),
    {
        ConfigBuilder {
            g_size: (GRID_COLS, GRID_ROWS),
            drop_time_ms: DROP_TIME_MS,
            lock_step_time_ms: LOCK_STEP_TIME_MS,
            drop_factor_ms: DROP_FACTOR_MS,
            shadow_enabled: false,
        }
    }

    /// The configuration this builder currently describes.
    pub closed spec fn spec_build(self) -> Config {
        Config {
            grid_size: self.g_size,
            drop_time_ms: self.drop_time_ms,
            lock_step_time_ms: self.lock_step_time_ms,
            drop_factor_ms: self.drop_factor_ms,
            shadow_enabled: self.shadow_enabled,
        }
    }

    pub fn grid_size(self, grid_size: (u32, u32)) -> (b: ConfigBuilder)
        ensures
            b.spec_build() == (Config { grid_size, ..self.spec_build() }),
    {
        ConfigBuilder { g_size: grid_size, ..self }
    }

    pub fn drop_time(self, drop_time_ms: u64) -> (b: ConfigBuilder)
        ensures
            b.spec_build() == (Config { drop_time_ms, ..self.spec_build() }),
    {
        ConfigBuilder { drop_time_ms, ..self }
    }

    pub fn lock_step_time(self, lock_step_time_ms: u64) -> (b: ConfigBuilder)
        ensures
            b.spec_build() == (Config { lock_step_time_ms, ..self.spec_build() }),
    {
        ConfigBuilder { lock_step_time_ms, ..self }
    }

    pub fn drop_factor(self, drop_factor_ms: u64) -> (b: ConfigBuilder)
        ensures
            b.spec_build() == (Config { drop_factor_ms, ..self.spec_build() }),
    {
        ConfigBuilder { drop_factor_ms, ..self }
    }

    pub fn shadow(self, shadow: bool) -> (b: ConfigBuilder)
        ensures
            b.spec_build() == (Config { shadow_enabled: shadow, ..self.spec_build() }),
    {
        ConfigBuilder { shadow_enabled: shadow, ..self }
    }

    pub fn build(self) -> (c: Config)
        ensures
            c == self.spec_build(),
    {
        Config {
            grid_size: self.g_size,
            drop_time_ms: self.drop_time_ms,
            lock_step_time_ms: self.lock_step_time_ms,
            drop_factor_ms: self.drop_factor_ms,
            shadow_enabled: self.shadow_enabled,
        }
    }
}

} // verus!
