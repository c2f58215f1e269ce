//! Which rows of the interpreter a surface shows.

use vstd::prelude::*;

verus! {

/// The two surfaces that are built from the interpreter.
#[derive(Clone, Copy, Debug, PartialEq, Eq, Structural)]
pub enum SurfaceKind {
    /// Every row that the interpreter holds.
    Scrollback,
    /// What the user sees: as many rows as the screen has, where the view stands.
    Screen,
}

/// Whether the rows of a surface can be chosen: the screen fits in the rows held, and,
/// on the primary screen, the view does not stand above the oldest row.
pub open spec fn window_defined(total: nat, rows: nat, scroll_position: nat, alternate: bool) -> bool {
    &&& rows <= total
    &&& alternate || scroll_position <= total - rows
}

/// The rows of a surface, as the index of its first row and the index after its last.
///
/// The scrollback is every row. The screen ends at the newest row on the alternate
/// screen, and `scroll_position` rows above it otherwise; it starts where that leaves
/// room for the screen's rows.
pub open spec fn row_window(kind: SurfaceKind, total: nat, rows: nat, scroll_position: nat, alternate: bool) -> (int, int) {
    match kind {
        SurfaceKind::Scrollback => (0, total as int),
        SurfaceKind::Screen => {
            let bottom = if alternate {
                total as int
            } else {
                total - scroll_position
            };
            (bottom - rows, bottom)
        },
    }
}

/// The width and the height of a surface: the scrollback is as high as the rows held,
/// the screen as high as the screen.
pub open spec fn surface_size(kind: SurfaceKind, cols: nat, total: nat, rows: nat) -> (nat, nat) {
    match kind {
        SurfaceKind::Scrollback => (cols, total),
        SurfaceKind::Screen => (cols, rows),
    }
}

/// Computes `row_window`.
pub fn select_rows(kind: SurfaceKind, total: usize, rows: usize, scroll_position: usize, alternate: bool) -> (window: (usize, usize))
    requires
        window_defined(total as nat, rows as nat, scroll_position as nat, alternate),
    ensures
        (window.0 as int, window.1 as int) == row_window(kind, total as nat, rows as nat, scroll_position as nat, alternate),
        window.0 <= window.1 <= total,
        kind == SurfaceKind::Screen ==> window.1 - window.0 == rows,
{
    match kind {
        SurfaceKind::Scrollback => (0, total),
        SurfaceKind::Screen => {
            let bottom = if alternate {
                total
            } else {
                total - scroll_position
            };
            (bottom - rows, bottom)
        },
    }
}

/// Computes `surface_size`.
pub fn select_size(kind: SurfaceKind, cols: usize, total: usize, rows: usize) -> (size: (usize, usize))
    ensures
        (size.0 as nat, size.1 as nat) == surface_size(kind, cols as nat, total as nat, rows as nat),
{
    match kind {
        SurfaceKind::Scrollback => (cols, total),
        SurfaceKind::Screen => (cols, rows),
    }
}

/// While the view is not scrolled, the screen shows the last rows of the scrollback:
/// the rows of the screen's window are the tail of the rows of the scrollback's window.
pub proof fn lemma_screen_is_tail_of_scrollback<T>(lines: Seq<T>, rows: nat, alternate: bool)
    requires
        rows <= lines.len(),
    ensures
        ({
            let screen = row_window(SurfaceKind::Screen, lines.len(), rows, 0, alternate);
            let scrollback = row_window(SurfaceKind::Scrollback, lines.len(), rows, 0, alternate);
            let history = lines.subrange(scrollback.0, scrollback.1);
            &&& history == lines
            &&& lines.subrange(screen.0, screen.1) == history.subrange(history.len() - rows, history.len() as int)
        }),
{
    assert(lines.subrange(0, lines.len() as int) =~= lines);
}

/// The view, scrolled or not, is always a run of rows of the scrollback: the rows of
/// the screen's window are those of the scrollback's, `scroll_position` rows up.
pub proof fn lemma_screen_is_part_of_scrollback<T>(lines: Seq<T>, rows: nat, scroll_position: nat)
    requires
        window_defined(lines.len(), rows, scroll_position, false),
    ensures
        ({
            let screen = row_window(SurfaceKind::Screen, lines.len(), rows, scroll_position, false);
            &&& 0 <= screen.0 <= screen.1 <= lines.len()
            &&& screen.1 - screen.0 == rows
            &&& screen.1 == lines.len() - scroll_position
        }),
{
}

} // verus!
