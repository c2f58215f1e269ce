//! Painting the rows of the interpreter on a surface.
//!
//! A surface is built by changes. For each cell the cursor is put on the cell's place,
//! the eight attributes that are copied are set, and the cell's text is printed. What a
//! finished surface displays is the business of the surface; what is proved here is the
//! exact list of changes that it was given.

use crate::cell::cell_view;
use crate::cell::line_cells;
use crate::cell::read_cell;
use crate::cell::styled_line;
use crate::cell::styled_lines;
use crate::cell::StyledCell;
use crate::interpreter::cursor_pos;
use crate::interpreter::get_size;
use crate::interpreter::lines_in_phys_range;
use crate::interpreter::scrollback_rows;
use crate::interpreter::terminal_view;
use crate::interpreter::TerminalView;
use crate::surface::add_change;
use crate::surface::add_changes;
use crate::surface::attribute_change;
use crate::surface::change_paint;
use crate::surface::cursor_change;
use crate::surface::new_surface;
use crate::surface::paints_of;
use crate::surface::surface_view;
use crate::surface::text_change;
use crate::surface::Attribute;
use crate::surface::Paint;
use crate::surface::SurfaceView;
use crate::window::row_window;
use crate::window::select_rows;
use crate::window::select_size;
use crate::window::surface_size;
use crate::window::window_defined;
use crate::window::SurfaceKind;
use tattoy_termwiz::cell::Cell;
use tattoy_termwiz::surface::Change;
use tattoy_termwiz::surface::Line;
use tattoy_termwiz::surface::Surface;
use tattoy_wezterm_term::Terminal;
use vstd::prelude::*;

verus! {

/// The changes that copy one cell to column `x` of row `y`.
pub open spec fn cell_paints(x: nat, y: nat, cell: StyledCell) -> Seq<Paint> {
    seq![
        Paint::CursorPosition { x, y },
        Paint::Attribute(Attribute::Foreground(cell.foreground)),
        Paint::Attribute(Attribute::Background(cell.background)),
        Paint::Attribute(Attribute::Intensity(cell.intensity)),
        Paint::Attribute(Attribute::Italic(cell.italic)),
        Paint::Attribute(Attribute::Underline(cell.underline)),
        Paint::Attribute(Attribute::Blink(cell.blink)),
        Paint::Attribute(Attribute::Reverse(cell.reverse)),
        Paint::Attribute(Attribute::StrikeThrough(cell.strikethrough)),
        Paint::Text(cell.text@),
    ]
}

/// The changes that copy the cells of one row, from the left.
pub open spec fn row_paints(y: nat, cells: Seq<StyledCell>) -> Seq<Paint>
    decreases cells.len(),
{
    if cells.len() == 0 {
        Seq::empty()
    } else {
        row_paints(y, cells.drop_last()) + cell_paints((cells.len() - 1) as nat, y, cells.last())
    }
}

/// The changes that copy a run of rows, the first to row 0.
pub open spec fn grid_paints(rows: Seq<Seq<StyledCell>>) -> Seq<Paint>
    decreases rows.len(),
{
    if rows.len() == 0 {
        Seq::empty()
    } else {
        grid_paints(rows.drop_last()) + row_paints((rows.len() - 1) as nat, rows.last())
    }
}

/// The row on which the cursor is marked, for a cursor row as the interpreter counts it.
pub open spec fn cursor_mark_row(cursor_y: int) -> nat {
    (#[verifier::truncate] ((cursor_y as i64) as usize)) as nat
}

/// The changes of a whole surface: its rows, then the mark of the cursor.
pub open spec fn frame_paints(rows: Seq<Seq<StyledCell>>, cursor_x: nat, cursor_y: int) -> Seq<Paint> {
    grid_paints(rows) + seq![Paint::CursorPosition { x: cursor_x, y: cursor_mark_row(cursor_y) }]
}

/// The surface `after` is `before` with `paints` added to its log, and nothing else.
pub open spec fn painted(before: SurfaceView, after: SurfaceView, paints: Seq<Paint>) -> bool {
    &&& after.width == before.width
    &&& after.height == before.height
    &&& paints_of(after.changes) == paints_of(before.changes) + paints
}

/// The rows that a surface of one kind shows: the styled cells of the rows of its
/// window, the topmost first.
pub open spec fn shown_rows(
    kind: SurfaceKind,
    terminal: TerminalView,
    scroll_position: nat,
    alternate: bool,
) -> Seq<Seq<StyledCell>> {
    let window = row_window(kind, terminal.lines.len(), terminal.rows, scroll_position, alternate);
    styled_lines(terminal.lines.subrange(window.0, window.1))
}

/// What a surface of one kind is, built from an interpreter in a given state: its
/// size, and the changes that copied the rows of its window and marked the cursor.
pub open spec fn is_surface_of(
    surface: SurfaceView,
    kind: SurfaceKind,
    terminal: TerminalView,
    scroll_position: nat,
    alternate: bool,
) -> bool {
    let size = surface_size(kind, terminal.cols, terminal.lines.len(), terminal.rows);
    &&& surface.width == size.0
    &&& surface.height == size.1
    &&& paints_of(surface.changes) == frame_paints(
        shown_rows(kind, terminal, scroll_position, alternate),
        terminal.cursor_x,
        terminal.cursor_y,
    )
}

proof fn lemma_paints_of_push(changes: Seq<Change>, change: Change)
    ensures
        paints_of(changes.push(change)) == paints_of(changes).push(change_paint(change)),
{
    assert(paints_of(changes.push(change)) =~= paints_of(changes).push(change_paint(change)));
}

proof fn lemma_paints_of_add(first: Seq<Change>, second: Seq<Change>)
    ensures
        paints_of(first + second) == paints_of(first) + paints_of(second),
{
    assert(paints_of(first + second) =~= paints_of(first) + paints_of(second));
}

/// Copies one cell to column `x` of row `y`: the cursor, the attributes, the text.
fn paint_cell(surface: &mut Surface, x: usize, y: usize, cell: &Cell)
    requires
        surface_view(*old(surface)).height >= 1,
    ensures
        painted(
            surface_view(*old(surface)),
            surface_view(*final(surface)),
            cell_paints(x as nat, y as nat, cell_view(*cell)),
        ),
{
    let styled = read_cell(cell);
    let cursor = cursor_change(x, y);
    let ghost first = surface_view(*surface).changes;
    add_change(surface, cursor);

    let mut changes: Vec<Change> = Vec::new();
    changes.push(attribute_change(Attribute::Foreground(styled.foreground)));
    changes.push(attribute_change(Attribute::Background(styled.background)));
    changes.push(attribute_change(Attribute::Intensity(styled.intensity)));
    changes.push(attribute_change(Attribute::Italic(styled.italic)));
    changes.push(attribute_change(Attribute::Underline(styled.underline)));
    changes.push(attribute_change(Attribute::Blink(styled.blink)));
    changes.push(attribute_change(Attribute::Reverse(styled.reverse)));
    changes.push(attribute_change(Attribute::StrikeThrough(styled.strikethrough)));
    changes.push(text_change(styled.text.as_str()));
    let ghost rest = changes@;
    add_changes(surface, changes);

    proof {
        lemma_paints_of_push(first, cursor);
        lemma_paints_of_add(first.push(cursor), rest);
        assert(paints_of(first.push(cursor)) + paints_of(rest) =~= paints_of(first) + cell_paints(
            x as nat,
            y as nat,
            cell_view(*cell),
        ));
    }
}

/// Copies the cells of one line to row `y`, from the left.
fn paint_row(surface: &mut Surface, y: usize, line: &mut Line)
    requires
        surface_view(*old(surface)).height >= 1,
    ensures
        painted(
            surface_view(*old(surface)),
            surface_view(*final(surface)),
            row_paints(y as nat, styled_line(*old(line))),
        ),
        styled_line(*final(line)) == styled_line(*old(line)),
{
    let cells = line_cells(line);
    let ghost styled = styled_line(*old(line));
    let ghost before = surface_view(*surface);
    let mut x: usize = 0;
    while x < cells.len()
        invariant
            x <= cells.len(),
            cells@.len() == styled.len(),
            forall|i: int| 0 <= i < styled.len() ==> styled[i] == cell_view(#[trigger] cells@[i]),
            before.height >= 1,
            painted(before, surface_view(*surface), row_paints(y as nat, styled.take(x as int))),
        decreases cells.len() - x,
    {
        paint_cell(surface, x, y, &cells[x]);
        proof {
            let done = styled.take(x as int + 1);
            let cell = cell_paints(x as nat, y as nat, styled[x as int]);
            assert(done.drop_last() =~= styled.take(x as int));
            assert(row_paints(y as nat, done) == row_paints(y as nat, styled.take(x as int)) + cell);
            assert((paints_of(before.changes) + row_paints(y as nat, styled.take(x as int))) + cell
                =~= paints_of(before.changes) + row_paints(y as nat, done));
        }
        x = x + 1;
    }
    proof {
        assert(styled.take(x as int) =~= styled);
    }
}

/// Copies a run of lines to the rows of a surface, the first line to row 0.
fn paint_rows(surface: &mut Surface, lines: &mut Vec<Line>)
    requires
        surface_view(*old(surface)).height >= 1,
    ensures
        painted(
            surface_view(*old(surface)),
            surface_view(*final(surface)),
            grid_paints(styled_lines(old(lines)@)),
        ),
{
    let ghost rows = styled_lines(lines@);
    let ghost before = surface_view(*surface);
    let mut y: usize = 0;
    while y < lines.len()
        invariant
            y <= lines.len(),
            styled_lines(lines@) == rows,
            before.height >= 1,
            painted(before, surface_view(*surface), grid_paints(rows.take(y as int))),
        decreases lines.len() - y,
    {
        paint_row(surface, y, &mut lines[y]);
        proof {
            let done = rows.take(y as int + 1);
            let row = row_paints(y as nat, rows[y as int]);
            assert(styled_lines(lines@) =~= rows);
            assert(done.drop_last() =~= rows.take(y as int));
            assert(grid_paints(done) == grid_paints(rows.take(y as int)) + row);
            assert((paints_of(before.changes) + grid_paints(rows.take(y as int))) + row
                =~= paints_of(before.changes) + grid_paints(done));
        }
        y = y + 1;
    }
    proof {
        assert(rows.take(y as int) =~= rows);
    }
}

/// Builds the surface of one kind from the interpreter: a new surface of the kind's
/// size, the rows of the kind's window copied cell by cell, and the cursor marked.
pub(crate) fn build_surface(terminal: &Terminal, kind: SurfaceKind, scroll_position: usize, alternate: bool) -> (surface: Surface)
    requires
        terminal_view(*terminal).well_formed(),
        window_defined(
            terminal_view(*terminal).lines.len(),
            terminal_view(*terminal).rows,
            scroll_position as nat,
            alternate,
        ),
    ensures
        is_surface_of(surface_view(surface), kind, terminal_view(*terminal), scroll_position as nat, alternate),
{
    let screen_size = get_size(terminal);
    let total_lines = scrollback_rows(terminal);

    let size = select_size(kind, screen_size.cols, total_lines, screen_size.rows);
    let mut surface = new_surface(size.0, size.1);

    let range = select_rows(kind, total_lines, screen_size.rows, scroll_position, alternate);
    let mut lines = lines_in_phys_range(terminal, range.0, range.1);
    paint_rows(&mut surface, &mut lines);

    let users_cursor = cursor_pos(terminal);
    let cursor = cursor_change(users_cursor.0, #[verifier::truncate] (users_cursor.1 as usize));
    let ghost painted_rows = surface_view(surface).changes;
    add_change(&mut surface, cursor);
    proof {
        lemma_paints_of_push(painted_rows, cursor);
        assert(paints_of(painted_rows).push(change_paint(cursor)) =~= paints_of(painted_rows) + seq![
            change_paint(cursor),
        ]);
    }
    surface
}

/// While the view is not scrolled, the screen is the tail of the scrollback: built from
/// the same interpreter, the screen is as high as the visible screen and shows the last
/// rows of those that the scrollback shows.
pub proof fn lemma_screen_is_tail_of_scrollback(
    terminal: TerminalView,
    alternate: bool,
    screen: SurfaceView,
    scrollback: SurfaceView,
)
    requires
        terminal.well_formed(),
        is_surface_of(screen, SurfaceKind::Screen, terminal, 0, alternate),
        is_surface_of(scrollback, SurfaceKind::Scrollback, terminal, 0, alternate),
    ensures
        ({
            let history = shown_rows(SurfaceKind::Scrollback, terminal, 0, alternate);
            let tail = history.subrange(history.len() - terminal.rows, history.len() as int);
            &&& history == styled_lines(terminal.lines)
            &&& scrollback.height == history.len()
            &&& screen.height == tail.len()
            &&& shown_rows(SurfaceKind::Screen, terminal, 0, alternate) == tail
            &&& paints_of(scrollback.changes) == frame_paints(history, terminal.cursor_x, terminal.cursor_y)
            &&& paints_of(screen.changes) == frame_paints(tail, terminal.cursor_x, terminal.cursor_y)
        }),
{
    let lines = terminal.lines;
    let history = shown_rows(SurfaceKind::Scrollback, terminal, 0, alternate);
    assert(lines.subrange(0, lines.len() as int) =~= lines);
    assert(shown_rows(SurfaceKind::Screen, terminal, 0, alternate) =~= history.subrange(
        history.len() - terminal.rows,
        history.len() as int,
    ));
}

} // verus!
