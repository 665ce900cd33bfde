//! The drawing commands that the screens of the game are made of. A screen is
//! computed as a list of commands, which the caller performs on its terminal in
//! order; each command is one call of the terminal's drawing interface.

use vstd::prelude::*;

verus! {

/// The colours that the screens use: the named colours of the terminal's palette, and
/// the grey-blue of the panels.
#[derive(Clone, Copy, Debug, PartialEq, Eq, Structural)]
pub enum Color {
    Black,
    Blue,
    Cyan,
    Gray,
    Grey,
    Green,
    Magenta,
    Red,
    White,
    Yellow,
    /// The panel background, red 0.4, green 0.6, blue 0.6.
    Panel,
}

/// A cell of the terminal, or of the map, by column and row.
#[derive(Clone, Copy, Debug, PartialEq, Eq, Structural)]
pub struct Point {
    pub x: i32,
    pub y: i32,
}

/// One drawing call. `T` is the text's type: `String` in the commands that are
/// performed, its characters in their view.
#[derive(Debug)]
pub enum Command<T> {
    /// Fills the rectangle from `(x1, y1)` to `(x2, y2)` with a glyph.
    FillRegion { x1: i32, y1: i32, x2: i32, y2: i32, glyph: u16, fg: Color, bg: Color },
    /// A double-lined box.
    DrawBox { x: i32, y: i32, width: i32, height: i32, fg: Color, bg: Color },
    /// A single-lined box whose inside is left as it is.
    DrawHollowBox { x: i32, y: i32, width: i32, height: i32, fg: Color, bg: Color },
    /// A horizontal bar `width` cells long, filled in the proportion `n / max`.
    DrawBarHorizontal { x: i32, y: i32, width: i32, n: i32, max: i32, fg: Color, bg: Color },
    /// Text in the terminal's default colours.
    Print { x: i32, y: i32, text: T },
    /// Text in the given colours.
    PrintColor { x: i32, y: i32, fg: Color, bg: Color, text: T },
    /// Text centred on a row.
    PrintColorCentered { y: i32, fg: Color, bg: Color, text: T },
    /// One glyph in one cell.
    SetGlyph { x: i32, y: i32, fg: Color, bg: Color, glyph: u16 },
    /// Changes the background of one cell.
    SetBg { x: i32, y: i32, bg: Color },
}

/// A command to perform.
pub type Draw = Command<String>;

/// What a command draws, with its text as characters.
pub type DrawView = Command<Seq<char>>;

impl View for Command<String> {
    type V = Command<Seq<char>>;

    open spec fn view(&self) -> Command<Seq<char>> {
        match *self {
            Command::FillRegion { x1, y1, x2, y2, glyph, fg, bg } =>
                Command::FillRegion { x1, y1, x2, y2, glyph, fg, bg },
            Command::DrawBox { x, y, width, height, fg, bg } =>
                Command::DrawBox { x, y, width, height, fg, bg },
            Command::DrawHollowBox { x, y, width, height, fg, bg } =>
                Command::DrawHollowBox { x, y, width, height, fg, bg },
            Command::DrawBarHorizontal { x, y, width, n, max, fg, bg } =>
                Command::DrawBarHorizontal { x, y, width, n, max, fg, bg },
            Command::Print { x, y, text } => Command::Print { x, y, text: text@ },
            Command::PrintColor { x, y, fg, bg, text } =>
                Command::PrintColor { x, y, fg, bg, text: text@ },
            Command::PrintColorCentered { y, fg, bg, text } =>
                Command::PrintColorCentered { y, fg, bg, text: text@ },
            Command::SetGlyph { x, y, fg, bg, glyph } => Command::SetGlyph { x, y, fg, bg, glyph },
            Command::SetBg { x, y, bg } => Command::SetBg { x, y, bg },
        }
    }
}

/// What a list of commands draws.
pub open spec fn drawn(commands: Seq<Draw>) -> Seq<DrawView> {
    commands.map_values(|d: Draw| d@)
}

/// Appends one command to a screen under construction.
pub fn emit(screen: &mut Vec<Draw>, command: Draw)
    ensures
        drawn(final(screen)@) == drawn(old(screen)@).push(command@),
{
    screen.push(command);
    assert(drawn(screen@) =~= drawn(old(screen)@).push(command@));
}

/// The command that prints `text` in the given colours at `(x, y)`.
pub fn print_color(x: i32, y: i32, fg: Color, bg: Color, text: &str) -> (d: Draw)
    ensures
        d@ == (Command::PrintColor { x, y, fg, bg, text: text@ }),
{
    Command::PrintColor { x, y, fg, bg, text: String::from_str(text) }
}

/// The command that prints `text` centred on row `y` in the given colours.
pub fn print_color_centered(y: i32, fg: Color, bg: Color, text: &str) -> (d: Draw)
    ensures
        d@ == (Command::PrintColorCentered { y, fg, bg, text: text@ }),
{
    Command::PrintColorCentered { y, fg, bg, text: String::from_str(text) }
}

} // verus!
