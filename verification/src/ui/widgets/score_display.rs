//! The score of an analysis: the number, its wording, and a bar.

use crate::ui::theme::{score_color, score_label, Color, ScoreBand};
use vstd::prelude::*;

verus! {

/// The score panel of the main screen.
#[derive(Debug, Clone, Copy, PartialEq, Eq, Structural)]
pub struct ScoreDisplay {
    score: u8,
}

impl ScoreDisplay {
    pub closed spec fn spec_score(&self) -> u8 {
        self.score
    }

    pub fn new(score: u8) -> (display: ScoreDisplay)
        ensures
            display.spec_score() == score,
    {
        ScoreDisplay { score }
    }

    #[verifier::when_used_as_spec(spec_score)]
    pub fn score(&self) -> (r: u8)
        ensures
            r == self.spec_score(),
    {
        self.score
    }

    /// The rows that the panel takes: a border above and below, the score
    /// line and the bar.
    pub fn height() -> (rows: u16)
        ensures
            rows == 4,
    {
        4
    }

    /// The colour of the number, the wording and the filled part of the bar.
    pub fn color(&self) -> (color: Color)
        ensures
            color == ScoreBand::of(self.spec_score()).color(),
    {
        score_color(self.score)
    }

    /// The wording of the score.
    pub fn label(&self) -> (label: &'static str)
        ensures
            label@ == ScoreBand::of(self.spec_score()).label(),
    {
        score_label(self.score)
    }

    /// The filled cells of a bar of `width` cells: the score's hundredths
    /// of the width, rounded down.
    pub open spec fn spec_filled(&self, width: u16) -> int {
        (self.spec_score() as int * width as int) / 100
    }

    /// The filled and the empty cells of a bar of `width` cells. A score
    /// above 100 fills more cells than the bar is wide, and leaves none empty.
    pub fn bar(&self, width: u16) -> (cells: (usize, usize))
        ensures
            cells.0 == self.spec_filled(width),
            cells.1 == crate::ui::layout::sat_sub(width as int, self.spec_filled(width)),
            self.spec_score() <= 100 ==> cells.0 + cells.1 == width,
    {
        let score: u32 = self.score as u32;
        assert(score * (width as u32) <= 255 * 65535) by (nonlinear_arith)
            requires
                0 <= score <= 255,
                0 <= width <= 65535,
        ;
        let product: u32 = score * (width as u32);
        let filled: u32 = product / 100;
        let empty: u32 = if filled > width as u32 {
            0
        } else {
            width as u32 - filled
        };
        assert(self.spec_score() <= 100 ==> filled <= width) by (nonlinear_arith)
            requires
                filled == (self.spec_score() as int * width as int) / 100,
                self.spec_score() >= 0,
                width >= 0,
        ;
        (filled as usize, empty as usize)
    }
}

} // verus!
