//! The six colours of the indicator and the table that leads from one to the
//! next.

use vstd::prelude::*;

verus! {

/// Logic level of an output line. The indicator's lines are active low: a
/// colour line that is driven low is lit.
#[derive(Clone, Copy, PartialEq, Eq, Debug, Structural)]
pub enum Level {
    Low,
    High,
}

/// One of the three colour lines of the indicator.
#[derive(Clone, Copy, PartialEq, Eq, Debug, Structural)]
pub enum Line {
    Red,
    Green,
    Blue,
}

/// The colour that the indicator shows. The colours follow each other in the
/// order of the variants, and `Red` follows `BlueRed`.
#[derive(Clone, Copy, PartialEq, Eq, Debug, Structural)]
pub enum Color {
    Red,
    RedGreen,
    Green,
    GreenBlue,
    Blue,
    BlueRed,
}

impl Color {
    /// Position of the colour in the cycle, counted from `Red`.
    pub open spec fn index(self) -> nat {
        match self {
            Color::Red => 0,
            Color::RedGreen => 1,
            Color::Green => 2,
            Color::GreenBlue => 3,
            Color::Blue => 4,
            Color::BlueRed => 5,
        }
    }

    /// The colour at position `i` of the cycle; positions wrap around.
    pub open spec fn at(i: nat) -> Color {
        let r = i % 6;
        if r == 0 {
            Color::Red
        } else if r == 1 {
            Color::RedGreen
        } else if r == 2 {
            Color::Green
        } else if r == 3 {
            Color::GreenBlue
        } else if r == 4 {
            Color::Blue
        } else {
            Color::BlueRed
        }
    }

    /// The colour that follows `self`.
    pub open spec fn successor(self) -> Color {
        Color::at(self.index() + 1)
    }

    /// Whether `line` is lit while the indicator shows `self`.
    pub open spec fn lights(self, line: Line) -> bool {
        match line {
            Line::Red => self == Color::Red || self == Color::RedGreen || self == Color::BlueRed,
            Line::Green => self == Color::RedGreen || self == Color::Green || self
                == Color::GreenBlue,
            Line::Blue => self == Color::GreenBlue || self == Color::Blue || self == Color::BlueRed,
        }
    }

    /// The single line that changes when the indicator leaves `self`.
    pub open spec fn changed_line(self) -> Line {
        match self {
            Color::Red | Color::GreenBlue => Line::Green,
            Color::RedGreen | Color::Blue => Line::Red,
            Color::Green | Color::BlueRed => Line::Blue,
        }
    }

    /// The level to which `changed_line` is driven when the indicator leaves
    /// `self`: low where the next colour lights the line, high where it does
    /// not.
    pub open spec fn changed_level(self) -> Level {
        if self.successor().lights(self.changed_line()) {
            Level::Low
        } else {
            Level::High
        }
    }

    /// The colour that follows `self` in the cycle.
    pub fn next(self) -> (c: Color)
        ensures
            c == self.successor(),
    {
        match self {
            Color::Red => Color::RedGreen,
            Color::RedGreen => Color::Green,
            Color::Green => Color::GreenBlue,
            Color::GreenBlue => Color::Blue,
            Color::Blue => Color::BlueRed,
            Color::BlueRed => Color::Red,
        }
    }

    /// The line to drive, and the level to drive it to, on leaving `self`.
    pub fn change(self) -> (c: (Line, Level))
        ensures
            c.0 == self.changed_line(),
            c.1 == self.changed_level(),
    {
        match self {
            Color::Red => (Line::Green, Level::Low),
            Color::RedGreen => (Line::Red, Level::High),
            Color::Green => (Line::Blue, Level::Low),
            Color::GreenBlue => (Line::Green, Level::High),
            Color::Blue => (Line::Red, Level::Low),
            Color::BlueRed => (Line::Blue, Level::High),
        }
    }
}

/// The levels of the three colour lines.
pub struct Lines {
    pub red: Level,
    pub green: Level,
    pub blue: Level,
}

impl Lines {
    /// All lines high: no colour line is lit.
    pub open spec fn dark() -> Lines {
        Lines { red: Level::High, green: Level::High, blue: Level::High }
    }

    /// The level of `line`.
    pub open spec fn level(self, line: Line) -> Level {
        match line {
            Line::Red => self.red,
            Line::Green => self.green,
            Line::Blue => self.blue,
        }
    }

    /// The lines after `line` was driven to `level`.
    pub open spec fn drive(self, line: Line, level: Level) -> Lines {
        match line {
            Line::Red => Lines { red: level, ..self },
            Line::Green => Lines { green: level, ..self },
            Line::Blue => Lines { blue: level, ..self },
        }
    }

    /// Whether the lines show `color`: the lines that the colour lights are
    /// low, and the others are high.
    pub open spec fn shows(self, color: Color) -> bool {
        &&& self.red == Level::Low <==> color.lights(Line::Red)
        &&& self.green == Level::Low <==> color.lights(Line::Green)
        &&& self.blue == Level::Low <==> color.lights(Line::Blue)
    }
}

/// The change on leaving a colour turns lines that show the colour into lines
/// that show the next colour.
pub proof fn lemma_change_shows_successor(lines: Lines, color: Color)
    requires
        lines.shows(color),
    ensures
        lines.drive(color.changed_line(), color.changed_level()).shows(color.successor()),
{
}

/// `at` undoes `index`.
pub proof fn lemma_at_index(color: Color)
    ensures
        Color::at(color.index()) == color,
        color.index() < 6,
{
}

/// `index` undoes `at` up to whole cycles, and `at` turns a step along the
/// positions into a step along the colours.
pub proof fn lemma_index_at(i: nat)
    ensures
        Color::at(i).index() == i % 6,
        Color::at(i).successor() == Color::at(i + 1),
        Color::at(i + 6) == Color::at(i),
{
}

} // verus!
