//! Surfaces: grids of styled cells that are built by a log of changes.

use tattoy_termwiz::cell::Blink;
use tattoy_termwiz::cell::AttributeChange;
use tattoy_termwiz::cell::Intensity;
use tattoy_termwiz::cell::Underline;
use tattoy_termwiz::color::ColorAttribute;
use tattoy_termwiz::surface::Change;
use tattoy_termwiz::surface::Position;
use tattoy_termwiz::surface::Surface;
use vstd::prelude::*;

verus! {

/// A surface. Opaque here: only `surface_view` speaks of what it holds.
#[verifier::external_type_specification]
#[verifier::external_body]
pub struct ExSurface(tattoy_termwiz::surface::Surface);

/// One entry of a surface's log. Opaque here: only `change_paint` speaks of it.
#[verifier::external_type_specification]
#[verifier::external_body]
pub struct ExChange(tattoy_termwiz::surface::Change);

/// One attribute of the cells that are printed next.
pub enum Attribute {
    Foreground(ColorAttribute),
    Background(ColorAttribute),
    Intensity(Intensity),
    Italic(bool),
    Underline(Underline),
    Blink(Blink),
    Reverse(bool),
    StrikeThrough(bool),
}

/// What one change does to a surface, for the three kinds of change made here.
pub enum Paint {
    /// Moves the cursor to a column and a row, both counted from zero.
    CursorPosition { x: nat, y: nat },
    /// Sets one attribute for the text printed from now on.
    Attribute(Attribute),
    /// Prints text at the cursor.
    Text(Seq<char>),
    /// Any other change. None is made here.
    Other,
}

/// What this library states of a surface.
pub struct SurfaceView {
    /// Columns.
    pub width: nat,
    /// Rows.
    pub height: nat,
    /// The log of changes, the first applied first.
    pub changes: Seq<Change>,
}

/// The size of a surface and the log of changes that it keeps.
pub uninterp spec fn surface_view(surface: Surface) -> SurfaceView;

/// What a change does: one of the three kinds that `cursor_change`, `attribute_change`
/// and `text_change` make, or `Other` for every other change.
pub uninterp spec fn change_paint(change: Change) -> Paint;

/// None of the changes is of another kind than the three made here.
pub open spec fn all_plain(changes: Seq<Change>) -> bool {
    forall|i: int| 0 <= i < changes.len() ==> !(#[trigger] change_paint(changes[i]) is Other)
}

/// What each change of a log does, in the log's order.
pub open spec fn paints_of(changes: Seq<Change>) -> Seq<Paint> {
    Seq::new(changes.len(), |i: int| change_paint(changes[i]))
}

/// Calls `Surface::new`.
///
/// Trusted: the surface has the size asked for and an empty log.
#[verifier::external_body]
pub(crate) fn new_surface(width: usize, height: usize) -> (surface: Surface)
    ensures
        surface_view(surface) == (SurfaceView { width: width as nat, height: height as nat, changes: Seq::empty() }),
{
    Surface::new(width, height)
}

/// Calls `Surface::add_change`.
///
/// Trusted: the change is applied and appended to the log; the size stays. A surface
/// without rows is left out, since printing on it indexes its first row, and so are
/// the changes of other kinds, some of which index rows without a test.
#[verifier::external_body]
pub(crate) fn add_change(surface: &mut Surface, change: Change)
    requires
        surface_view(*old(surface)).height >= 1,
        !(change_paint(change) is Other),
    ensures
        surface_view(*final(surface)) == (SurfaceView {
            changes: surface_view(*old(surface)).changes.push(change),
            ..surface_view(*old(surface))
        }),
{
    surface.add_change(change);
}

/// Calls `Surface::add_changes`.
///
/// Trusted: the changes are applied in order and appended to the log; the size stays.
/// A surface without rows and changes of other kinds are left out as for `add_change`.
#[verifier::external_body]
pub(crate) fn add_changes(surface: &mut Surface, changes: Vec<Change>)
    requires
        surface_view(*old(surface)).height >= 1,
        all_plain(changes@),
    ensures
        surface_view(*final(surface)) == (SurfaceView {
            changes: surface_view(*old(surface)).changes + changes@,
            ..surface_view(*old(surface))
        }),
{
    surface.add_changes(changes);
}

/// Makes `Change::CursorPosition` with both coordinates absolute.
#[verifier::external_body]
pub(crate) fn cursor_change(x: usize, y: usize) -> (change: Change)
    ensures
        change_paint(change) == (Paint::CursorPosition { x: x as nat, y: y as nat }),
{
    Change::CursorPosition { x: Position::Absolute(x), y: Position::Absolute(y) }
}

/// Makes `Change::Attribute` with the variant of `AttributeChange` of the same name.
#[verifier::external_body]
pub(crate) fn attribute_change(attribute: Attribute) -> (change: Change)
    ensures
        change_paint(change) == Paint::Attribute(attribute),
{
    Change::Attribute(match attribute {
        Attribute::Foreground(color) => AttributeChange::Foreground(color),
        Attribute::Background(color) => AttributeChange::Background(color),
        Attribute::Intensity(value) => AttributeChange::Intensity(value),
        Attribute::Italic(value) => AttributeChange::Italic(value),
        Attribute::Underline(value) => AttributeChange::Underline(value),
        Attribute::Blink(value) => AttributeChange::Blink(value),
        Attribute::Reverse(value) => AttributeChange::Reverse(value),
        Attribute::StrikeThrough(value) => AttributeChange::StrikeThrough(value),
    })
}

/// Makes `Change::Text` from a copy of the text.
#[verifier::external_body]
pub(crate) fn text_change(text: &str) -> (change: Change)
    ensures
        change_paint(change) == Paint::Text(text@),
{
    Change::Text(text.to_string())
}

} // verus!
