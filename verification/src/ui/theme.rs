//! The colours of the interface and the wording of scores.

use vstd::prelude::*;

verus! {

/// A colour of the interface.
#[derive(Debug, Clone, Copy, PartialEq, Eq, Structural)]
pub enum Color {
    /// Gold, the primary colour.
    Primary,
    /// Secondary text.
    Secondary,
    /// Dimmed text.
    Muted,
    /// Green, for success.
    Success,
    /// Red, for failure.
    Error,
    /// Yellow, for warnings.
    Warning,
    /// Orange, for poor scores.
    Orange,
    /// The dark background.
    Background,
    /// Surfaces, slightly lighter than the background.
    Surface,
    /// Borders.
    Border,
}

impl Color {
    /// The red, green and blue parts of the colour.
    pub open spec fn spec_rgb(&self) -> (u8, u8, u8) {
        match self {
            Color::Primary => (212, 175, 55),
            Color::Secondary => (176, 176, 176),
            Color::Muted => (102, 102, 102),
            Color::Success => (34, 197, 94),
            Color::Error => (239, 68, 68),
            Color::Warning => (234, 179, 8),
            Color::Orange => (249, 115, 22),
            Color::Background => (17, 17, 17),
            Color::Surface => (30, 30, 30),
            Color::Border => (64, 64, 64),
        }
    }

    #[verifier::when_used_as_spec(spec_rgb)]
    pub fn rgb(&self) -> (parts: (u8, u8, u8))
        ensures
            parts == self.spec_rgb(),
    {
        match self {
            Color::Primary => (212, 175, 55),
            Color::Secondary => (176, 176, 176),
            Color::Muted => (102, 102, 102),
            Color::Success => (34, 197, 94),
            Color::Error => (239, 68, 68),
            Color::Warning => (234, 179, 8),
            Color::Orange => (249, 115, 22),
            Color::Background => (17, 17, 17),
            Color::Surface => (30, 30, 30),
            Color::Border => (64, 64, 64),
        }
    }
}

/// The band that a score falls into.
#[derive(Debug, Clone, Copy, PartialEq, Eq, Structural)]
pub enum ScoreBand {
    Excellent,
    Good,
    Fair,
    Poor,
    VeryPoor,
}

impl ScoreBand {
    /// The band of a score: 90 to 100 is excellent, 70 to 89 good, 50 to 69
    /// fair, 30 to 49 poor, and everything else, scores above 100 included,
    /// very poor.
    pub open spec fn spec_of(score: u8) -> ScoreBand {
        if 90 <= score <= 100 {
            ScoreBand::Excellent
        } else if 70 <= score <= 89 {
            ScoreBand::Good
        } else if 50 <= score <= 69 {
            ScoreBand::Fair
        } else if 30 <= score <= 49 {
            ScoreBand::Poor
        } else {
            ScoreBand::VeryPoor
        }
    }

    #[verifier::when_used_as_spec(spec_of)]
    pub fn of(score: u8) -> (band: ScoreBand)
        ensures
            band == Self::spec_of(score),
    {
        if score > 100 {
            ScoreBand::VeryPoor
        } else if score >= 90 {
            ScoreBand::Excellent
        } else if score >= 70 {
            ScoreBand::Good
        } else if score >= 50 {
            ScoreBand::Fair
        } else if score >= 30 {
            ScoreBand::Poor
        } else {
            ScoreBand::VeryPoor
        }
    }

    pub open spec fn color(self) -> Color {
        match self {
            ScoreBand::Excellent => Color::Success,
            ScoreBand::Good => Color::Success,
            ScoreBand::Fair => Color::Warning,
            ScoreBand::Poor => Color::Orange,
            ScoreBand::VeryPoor => Color::Error,
        }
    }

    pub open spec fn label(self) -> Seq<char> {
        match self {
            ScoreBand::Excellent => "Excellent"@,
            ScoreBand::Good => "Good"@,
            ScoreBand::Fair => "Fair"@,
            ScoreBand::Poor => "Poor"@,
            ScoreBand::VeryPoor => "Very Poor"@,
        }
    }
}

/// The colour in which a score is shown.
pub fn score_color(score: u8) -> (color: Color)
    ensures
        color == ScoreBand::of(score).color(),
{
    match ScoreBand::of(score) {
        ScoreBand::Excellent => Color::Success,
        ScoreBand::Good => Color::Success,
        ScoreBand::Fair => Color::Warning,
        ScoreBand::Poor => Color::Orange,
        ScoreBand::VeryPoor => Color::Error,
    }
}

/// The word that describes a score.
pub fn score_label(score: u8) -> (label: &'static str)
    ensures
        label@ == ScoreBand::of(score).label(),
{
    match ScoreBand::of(score) {
        ScoreBand::Excellent => "Excellent",
        ScoreBand::Good => "Good",
        ScoreBand::Fair => "Fair",
        ScoreBand::Poor => "Poor",
        ScoreBand::VeryPoor => "Very Poor",
    }
}

} // verus!
