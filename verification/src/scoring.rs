//! The score counter and the pluggable scoring policy.
//!
//! A scoring policy is a pure function from the previous score and a
//! line-clear event to the new score; the default policy awards a flat
//! 100 points per cleared line. Policies are swappable without changing
//! the controller: it is generic over the `ScoringSystem` it drives.

use vstd::prelude::*;

verus! {

/// A non-negative score counter. Additions saturate at the counter's
/// maximum instead of wrapping.
pub struct Score {
    score: u32,
}

impl Score {
    /// The points counted so far.
    pub closed spec fn points(self) -> u32 {
        self.score
    }

    pub fn new() -> (s: Score)
        ensures
            s.points() == 0,
    {
        Score { score: 0 }
    }

    /// Adds `value` points, saturating at the counter's maximum.
    pub fn add(&mut self, value: u32)
        ensures
            final(self).points() == if old(self).points() + value <= u32::MAX {
                (old(self).points() + value) as u32
            } else {
                u32::MAX
            },
    {
        self.score = self.score.saturating_add(value);
    }

    /// The points counted so far.
    pub fn value(&self) -> (v: u32)
        ensures
            v == self.points(),
    {
        self.score
    }
}

/// What a line-clear event tells the scoring policy.
#[derive(Copy, Clone, PartialEq, Eq, Structural, Debug)]
pub struct ScoreMetaData {
    pub lines_cleared: u32,
}

/// A scoring policy: `spec_score` is the policy as a mathematical
/// function, and `update_score` applies it to the counter.
pub trait ScoringSystem: Sized {
    /// The score this policy yields from `prev` points after an event
    /// clearing `lines` lines.
    spec fn spec_score(&self, prev: u32, lines: u32) -> u32;

    /// Folds a line-clear event into the score, as the policy prescribes.
    fn update_score(&self, score: &mut Score, metadata: ScoreMetaData)
        ensures
            final(score).points() == self.spec_score(
                old(score).points(),
                metadata.lines_cleared,
            ),
    ;
}

/// The default policy: 100 points for each cleared line, with no combo
/// or multi-line bonus, saturating at the counter's maximum.
#[derive(Copy, Clone, PartialEq, Eq, Structural, Debug)]
pub struct DefaultScoringSystem;

impl ScoringSystem for DefaultScoringSystem {
    open spec fn spec_score(&self, prev: u32, lines: u32) -> u32 {
        if prev + lines * 100 <= u32::MAX {
            (prev + lines * 100) as u32
        } else {
            u32::MAX
        }
    }

    fn update_score(&self, score: &mut Score, metadata: ScoreMetaData) {
        // 100 times the number of lines that were cleared.
        let lines = metadata.lines_cleared;
        let award = if lines <= u32::MAX / 100 {
            lines * 100
        } else {
            u32::MAX
        };
        score.add(award);
    }
}

} // verus!
