//! The cells of a terminal line, and what is copied from each of them.

use tattoy_termwiz::cell::Blink;
use tattoy_termwiz::cell::Cell;
use tattoy_termwiz::cell::Intensity;
use tattoy_termwiz::cell::Underline;
use tattoy_termwiz::color::ColorAttribute;
use tattoy_termwiz::surface::Line;
use vstd::prelude::*;

verus! {

/// One row of the interpreter's history. Opaque here: only `cells_of` speaks of it.
#[verifier::external_type_specification]
#[verifier::external_body]
pub struct ExLine(tattoy_termwiz::surface::Line);

/// One character cell of a line. Opaque here: only `cell_view` speaks of it.
#[verifier::external_type_specification]
#[verifier::external_body]
pub struct ExCell(tattoy_termwiz::cell::Cell);

/// A colour as the interpreter stores it. Carried from a cell to a surface unchanged.
#[verifier::external_type_specification]
#[verifier::external_body]
pub struct ExColorAttribute(tattoy_termwiz::color::ColorAttribute);

/// How bold a cell is. Carried from a cell to a surface unchanged.
#[verifier::external_type_specification]
#[verifier::external_body]
pub struct ExIntensity(tattoy_termwiz::cell::Intensity);

/// The underline of a cell. Carried from a cell to a surface unchanged.
#[verifier::external_type_specification]
#[verifier::external_body]
pub struct ExUnderline(tattoy_termwiz::cell::Underline);

/// The blinking of a cell. Carried from a cell to a surface unchanged.
#[verifier::external_type_specification]
#[verifier::external_body]
pub struct ExBlink(tattoy_termwiz::cell::Blink);

/// The text of a cell and the attributes that are copied with it.
pub struct StyledCell {
    /// The grapheme that the cell shows.
    pub text: String,
    /// The colour of the text.
    pub foreground: ColorAttribute,
    /// The colour behind the text.
    pub background: ColorAttribute,
    /// Normal, bold or faint.
    pub intensity: Intensity,
    /// Whether the text is slanted.
    pub italic: bool,
    /// The line under the text, if any.
    pub underline: Underline,
    /// Whether and how fast the text blinks.
    pub blink: Blink,
    /// Whether the two colours are swapped.
    pub reverse: bool,
    /// Whether the text is struck through.
    pub strikethrough: bool,
}

/// The cells that a line holds, from the left.
pub uninterp spec fn cells_of(line: Line) -> Seq<Cell>;

/// The text of a cell and the eight attributes that `StyledCell` lists.
pub uninterp spec fn cell_view(cell: Cell) -> StyledCell;

/// The styled cells of one line.
pub open spec fn styled_line(line: Line) -> Seq<StyledCell> {
    Seq::new(cells_of(line).len(), |x: int| cell_view(cells_of(line)[x]))
}

/// The styled cells of a run of lines.
pub open spec fn styled_lines(lines: Seq<Line>) -> Seq<Seq<StyledCell>> {
    Seq::new(lines.len(), |y: int| styled_line(lines[y]))
}

/// Calls `Line::cells_mut` and copies the slice it returns.
///
/// Trusted: the cells returned are the cells that the line holds, and the call, which
/// only changes how the line stores them, leaves them as they were.
#[verifier::external_body]
pub(crate) fn line_cells(line: &mut Line) -> (cells: Vec<Cell>)
    ensures
        cells@ == cells_of(*old(line)),
        cells_of(*final(line)) == cells_of(*old(line)),
{
    line.cells_mut().to_vec()
}

/// Calls `Cell::str`, `Cell::attrs` and the getter of each attribute that is copied.
///
/// Trusted: the result holds what `cell_view` names, which is a function of the cell.
#[verifier::external_body]
pub(crate) fn read_cell(cell: &Cell) -> (styled: StyledCell)
    ensures
        styled == cell_view(*cell),
{
    let attrs = cell.attrs();
    StyledCell {
        text: cell.str().to_string(),
        foreground: attrs.foreground(),
        background: attrs.background(),
        intensity: attrs.intensity(),
        italic: attrs.italic(),
        underline: attrs.underline(),
        blink: attrs.blink(),
        reverse: attrs.reverse(),
        strikethrough: attrs.strikethrough(),
    }
}

} // verus!
