//! The level counter and the pluggable leveling policy.
//!
//! A leveling policy is a pure function from the current level and a
//! line-clear event to the new level; the default policy raises the level
//! by one whenever the cumulative number of cleared lines is a positive
//! exact multiple of ten at the moment the event is processed.

use vstd::prelude::*;

verus! {

/// A positive level counter, feeding back into the drop speed.
pub struct Level {
    pub level: u32,
}

impl Level {
    /// Play starts at level 1.
    pub fn new() -> (l: Level)
        ensures
            l.level == 1,
    {
        Level { level: 1 }
    }

    /// Raises the level by one, saturating at the counter's maximum.
    pub fn increase(&mut self)
        ensures
            final(self).level == if old(self).level + 1 <= u32::MAX {
                (old(self).level + 1) as u32
            } else {
                u32::MAX
            },
    {
        self.level = self.level.saturating_add(1);
    }
}

/// What a line-clear event tells the leveling policy.
#[derive(Copy, Clone, PartialEq, Eq, Structural, Debug)]
pub struct LevelMetaData {
    /// Lines cleared by this event.
    pub lines_cleared: u32,
    /// Cumulative lines cleared over the session, this event included.
    pub total_lines_cleared: u32,
}

/// A leveling policy: `spec_level` is the policy as a mathematical
/// function, and `process` applies it to the counter.
pub trait LevelingSystem: Sized {
    /// The level this policy yields from level `prev` after the event
    /// `meta`.
    spec fn spec_level(&self, prev: u32, meta: LevelMetaData) -> u32;

    /// Folds a line-clear event into the level, as the policy prescribes.
    fn process(&self, level: &mut Level, metadata: LevelMetaData)
        ensures
            final(level).level == self.spec_level(old(level).level, metadata),
    ;
}

/// The default policy: the level rises by one exactly when the event
/// cleared at least one line and the cumulative total is a positive
/// multiple of ten; it never fires while the total is still zero.
#[derive(Copy, Clone, PartialEq, Eq, Structural, Debug)]
pub struct DefaultLevelingSystem;

impl LevelingSystem for DefaultLevelingSystem {
    open spec fn spec_level(&self, prev: u32, meta: LevelMetaData) -> u32 {
        if meta.lines_cleared > 0 && meta.total_lines_cleared > 0 && meta.total_lines_cleared % 10
            == 0 {
            if prev + 1 <= u32::MAX {
                (prev + 1) as u32
            } else {
                u32::MAX
            }
        } else {
            prev
        }
    }

    fn process(&self, level: &mut Level, metadata: LevelMetaData) {
        // Increase the level every 10 lines cleared.
        if metadata.lines_cleared > 0 && metadata.total_lines_cleared > 0
            && metadata.total_lines_cleared % 10 == 0 {
            level.increase();
        }
    }
}

} // verus!
