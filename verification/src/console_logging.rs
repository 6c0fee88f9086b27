//! How a log record is laid out on the console: the colours of its level and
//! the widths of its columns. Writing the records is left to the program.

use vstd::prelude::*;

verus! {

/// The width to which the level of a record is padded.
pub const LEVEL_WIDTH: usize = 5;

/// The width to which the target of a record is padded.
pub const TARGET_WIDTH: usize = 40;

/// The severity of a log record.
#[derive(Debug, Clone, Copy, PartialEq, Eq, Structural)]
pub enum Level {
    Error,
    Warn,
    Info,
    Debug,
    Trace,
}

/// A colour of the console.
#[derive(Debug, Clone, Copy, PartialEq, Eq, Structural)]
pub enum Color {
    White,
    Red,
    Yellow,
    Cyan,
    Green,
    /// A colour of the palette of 256 colours, by its number.
    Ansi256(u8),
}

/// The colours in which the level of a record is written.
#[derive(Debug, Clone, Copy, PartialEq, Eq, Structural)]
pub struct LevelStyle {
    /// The colour of the text.
    pub color: Color,
    /// The colour behind the text, where it is not that of the console.
    pub background: Option<Color>,
}

/// The colours of a level: errors white on red, warnings yellow, information
/// cyan, debugging green, traces grey.
pub open spec fn spec_level_style(level: Level) -> LevelStyle {
    match level {
        Level::Error => LevelStyle { color: Color::White, background: Some(Color::Red) },
        Level::Warn => LevelStyle { color: Color::Yellow, background: None },
        Level::Info => LevelStyle { color: Color::Cyan, background: None },
        Level::Debug => LevelStyle { color: Color::Green, background: None },
        Level::Trace => LevelStyle { color: Color::Ansi256(8), background: None },
    }
}

/// The colours in which the level of a record is written.
pub fn level_style(level: Level) -> (style: LevelStyle)
    ensures
        style == spec_level_style(level),
{
    match level {
        Level::Error => LevelStyle { color: Color::White, background: Some(Color::Red) },
        Level::Warn => LevelStyle { color: Color::Yellow, background: None },
        Level::Info => LevelStyle { color: Color::Cyan, background: None },
        Level::Debug => LevelStyle { color: Color::Green, background: None },
        Level::Trace => LevelStyle { color: Color::Ansi256(8), background: None },
    }
}

} // verus!
