//! Progress display support: the spinner styles a terminal spinner can use.
//! Rendering is the caller's part; the style's animation frames are fixed
//! here.

use vstd::prelude::*;

verus! {

/// The animation style of a terminal spinner.
#[derive(Debug, Clone, Copy, PartialEq, Eq, Structural)]
pub enum SpinnerStyle {
    /// A turning braille dot pattern.
    Dots,
    /// A turning line.
    Line,
    /// A turning arrow.
    Arrow,
    /// A turning circle quarter.
    Circle,
    /// A turning square quarter.
    Square,
    /// A bouncing dot.
    Bounce,
}

impl SpinnerStyle {
    /// The animation frames of this style, one character per tick.
    pub fn tick_chars(self) -> (r: &'static str)
        ensures
            r@ == spec_tick_chars(self),
    {
        match self {
            SpinnerStyle::Dots => "⠋⠙⠹⠸⠼⠴⠦⠧⠇⠏",
            SpinnerStyle::Line => "-\\|/",
            SpinnerStyle::Arrow => "←↖↑↗→↘↓↙",
            SpinnerStyle::Circle => "◐◓◑◒",
            SpinnerStyle::Square => "◰◳◲◱",
            SpinnerStyle::Bounce => "⠁⠂⠄⠂",
        }
    }
}

/// The animation frames of each spinner style.
pub open spec fn spec_tick_chars(s: SpinnerStyle) -> Seq<char> {
    match s {
        SpinnerStyle::Dots => "⠋⠙⠹⠸⠼⠴⠦⠧⠇⠏"@,
        SpinnerStyle::Line => "-\\|/"@,
        SpinnerStyle::Arrow => "←↖↑↗→↘↓↙"@,
        SpinnerStyle::Circle => "◐◓◑◒"@,
        SpinnerStyle::Square => "◰◳◲◱"@,
        SpinnerStyle::Bounce => "⠁⠂⠄⠂"@,
    }
}

} // verus!
