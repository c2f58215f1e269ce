//! The terminal state interpreter: it advances on bytes and reports what it displays.

use tattoy_termwiz::surface::Line;
use tattoy_wezterm_term::color::ColorPalette;
use tattoy_wezterm_term::Terminal;
use tattoy_wezterm_term::TerminalConfiguration;
use tattoy_wezterm_term::TerminalSize;
use vstd::prelude::*;

verus! {

/// The interpreter. Opaque here: only `terminal_view` speaks of what it holds.
#[verifier::external_type_specification]
#[verifier::external_body]
pub struct ExTerminal(tattoy_wezterm_term::Terminal);

/// The size of the interpreter's screen, in cells and in pixels.
#[verifier::external_type_specification]
pub struct ExTerminalSize(tattoy_wezterm_term::TerminalSize);

/// The colours that the interpreter starts with.
#[verifier::external_type_specification]
#[verifier::external_body]
pub struct ExColorPalette(tattoy_wezterm_term::color::ColorPalette);

/// Nothing is stated of the default palette: it is only handed to the interpreter.
pub assume_specification[ <tattoy_wezterm_term::color::ColorPalette as std::default::Default>::default ]() -> tattoy_wezterm_term::color::ColorPalette;

/// No row of the interpreter takes more bytes than this, its cells not counted.
pub const LINE_BYTES: usize = 256;

/// Whether the interpreter can ask for room for so many rows, screen and history
/// together: an allocation of more than `isize::MAX` bytes panics.
pub open spec fn allocates(rows: nat, scrollback: nat) -> bool {
    (rows + scrollback) * LINE_BYTES <= isize::MAX
}

/// What this library reads of an interpreter.
pub struct TerminalView {
    /// Columns of the visible screen.
    pub cols: nat,
    /// Rows of the visible screen.
    pub rows: nat,
    /// How many rows the interpreter was made to keep once they have left the screen.
    pub scrollback: nat,
    /// Every row of the active screen, the oldest first. The visible rows are the last.
    pub lines: Seq<Line>,
    /// Whether the alternate screen is the active one.
    pub alt_screen: bool,
    /// The cursor's column, from the left of the visible screen.
    pub cursor_x: nat,
    /// The cursor's row, from the top of the visible screen.
    pub cursor_y: int,
}

impl TerminalView {
    /// The visible screen is not empty and is part of the rows held.
    pub open spec fn well_formed(self) -> bool {
        &&& 1 <= self.cols
        &&& 1 <= self.rows <= self.lines.len()
    }
}

/// What the interpreter holds: its size, the rows of its active screen, and its cursor.
pub uninterp spec fn terminal_view(terminal: Terminal) -> TerminalView;

/// What the interpreter holds once it has read the bytes, or `None` where it does not
/// get through them: on a few sequences the interpreter panics, such as a tab stop set
/// while the cursor stands one past the last column.
///
/// For an interpreter as `new_terminal` makes it, which leaves the image protocol that
/// reads files switched off, this is a function of the interpreter and the bytes: no
/// clock is read, and no file.
pub uninterp spec fn advanced_view(terminal: Terminal, bytes: Seq<u8>) -> Option<TerminalView>;

/// What the interpreter holds once it has been resized. It is a function of the
/// interpreter and the size.
pub uninterp spec fn resized_view(terminal: Terminal, size: TerminalSize) -> TerminalView;

/// A size in cells, for a screen whose size in pixels is of no account.
pub open spec fn size_in_cells(width: usize, height: usize) -> TerminalSize {
    TerminalSize { cols: width, rows: height, pixel_width: 0, pixel_height: 0, dpi: 0 }
}

/// The configuration that the interpreter asks for its history size. Everything else
/// is left as the interpreter has it by default.
#[derive(Debug)]
pub struct WeztermConfig {
    /// The number of rows kept once they have left the screen.
    pub scrollback: usize,
}

impl TerminalConfiguration for WeztermConfig {
    fn scrollback_size(&self) -> (size: usize)
        ensures
            size == self.scrollback,
    {
        self.scrollback
    }

    fn color_palette(&self) -> ColorPalette {
        ColorPalette::default()
    }
}

/// Computes `size_in_cells`.
pub fn wezterm_size(width: usize, height: usize) -> (size: TerminalSize)
    ensures
        size == size_in_cells(width, height),
{
    TerminalSize { cols: width, rows: height, pixel_width: 0, pixel_height: 0, dpi: 0 }
}

/// Calls `Terminal::new` with a writer that keeps what the interpreter answers.
///
/// Trusted: a new interpreter has the size asked for, keeps as much history as the
/// configuration that it is handed says, holds exactly its visible rows, shows the
/// primary screen, and has its cursor at the top left.
#[verifier::external_body]
pub(crate) fn new_terminal(size: TerminalSize, scrollback: usize) -> (terminal: Terminal)
    requires
        1 <= size.cols,
        1 <= size.rows,
        allocates(size.rows as nat, scrollback as nat),
    ensures
        terminal_view(terminal).cols == size.cols,
        terminal_view(terminal).rows == size.rows,
        terminal_view(terminal).scrollback == scrollback,
        terminal_view(terminal).lines.len() == size.rows,
        !terminal_view(terminal).alt_screen,
        terminal_view(terminal).cursor_x == 0,
        terminal_view(terminal).cursor_y == 0,
{
    Terminal::new(
        size,
        std::sync::Arc::new(WeztermConfig { scrollback }),
        "Tattoy",
        "O_o",
        Box::<Vec<u8>>::default(),
    )
}

/// Calls `Terminal::advance_bytes`.
///
/// The bytes on which the interpreter panics are left out. Nothing tells them
/// beforehand but the interpreter itself, so they are left out by name.
///
/// Trusted: what the interpreter holds afterwards is what `advanced_view` names; and
/// whatever the bytes do, the visible screen stays a non-empty part of the rows held,
/// and the interpreter keeps as much history as it was made to keep.
#[verifier::external_body]
pub(crate) fn advance_bytes(terminal: &mut Terminal, bytes: &[u8])
    requires
        advanced_view(*old(terminal), bytes@) is Some,
    ensures
        Some(terminal_view(*final(terminal))) == advanced_view(*old(terminal), bytes@),
        terminal_view(*final(terminal)).well_formed(),
        terminal_view(*final(terminal)).scrollback == terminal_view(*old(terminal)).scrollback,
{
    terminal.advance_bytes(bytes);
}

/// Calls `TerminalState::resize`.
///
/// Trusted: what the interpreter holds afterwards is what `resized_view` names. It
/// takes the new size; it pads its rows up to the new height; it stays on the screen
/// it was on; and it keeps as much history as it was made to keep.
#[verifier::external_body]
pub(crate) fn resize_terminal(terminal: &mut Terminal, size: TerminalSize)
    requires
        1 <= size.cols,
        1 <= size.rows,
        allocates(size.rows as nat, terminal_view(*old(terminal)).scrollback),
    ensures
        terminal_view(*final(terminal)) == resized_view(*old(terminal), size),
        terminal_view(*final(terminal)).cols == size.cols,
        terminal_view(*final(terminal)).rows == size.rows,
        terminal_view(*final(terminal)).alt_screen == terminal_view(*old(terminal)).alt_screen,
        terminal_view(*final(terminal)).scrollback == terminal_view(*old(terminal)).scrollback,
        terminal_view(*final(terminal)).well_formed(),
{
    terminal.resize(size);
}

/// Calls `TerminalState::is_alt_screen_active`.
#[verifier::external_body]
pub(crate) fn is_alt_screen_active(terminal: &Terminal) -> (active: bool)
    ensures
        active == terminal_view(*terminal).alt_screen,
{
    terminal.is_alt_screen_active()
}

/// Calls `TerminalState::get_size`.
///
/// Trusted: the columns and the rows are those of the visible screen. Nothing is
/// stated of the size in pixels.
#[verifier::external_body]
pub(crate) fn get_size(terminal: &Terminal) -> (size: TerminalSize)
    ensures
        size.cols == terminal_view(*terminal).cols,
        size.rows == terminal_view(*terminal).rows,
{
    terminal.get_size()
}

/// Calls `Screen::scrollback_rows` on the active screen: the number of rows it holds,
/// the visible ones included.
#[verifier::external_body]
pub(crate) fn scrollback_rows(terminal: &Terminal) -> (total: usize)
    ensures
        total == terminal_view(*terminal).lines.len(),
{
    terminal.screen().scrollback_rows()
}

/// Calls `TerminalState::cursor_pos` and keeps the column and the row, in that order.
#[verifier::external_body]
pub(crate) fn cursor_pos(terminal: &Terminal) -> (cursor: (usize, i64))
    ensures
        cursor.0 == terminal_view(*terminal).cursor_x,
        cursor.1 == terminal_view(*terminal).cursor_y,
{
    let cursor = terminal.cursor_pos();
    (cursor.x, cursor.y)
}

/// Calls `Screen::lines_in_phys_range` on the active screen.
///
/// Trusted: the result is a copy of the rows from `top` up to `bottom`, in order.
#[verifier::external_body]
pub(crate) fn lines_in_phys_range(terminal: &Terminal, top: usize, bottom: usize) -> (lines: Vec<Line>)
    requires
        top <= bottom <= terminal_view(*terminal).lines.len(),
    ensures
        lines@ == terminal_view(*terminal).lines.subrange(top as int, bottom as int),
{
    terminal.screen().lines_in_phys_range(top..bottom)
}

} // verus!
