//! Areas of the screen and how an area is cut into pieces.

use ratatui::layout;
use vstd::prelude::*;

verus! {

/// A rectangle of character cells.
#[derive(Clone, Copy, Debug, PartialEq, Eq, Structural)]
pub struct Rect {
    pub x: u16,
    pub y: u16,
    pub width: u16,
    pub height: u16,
}

/// The axis along which an area is cut.
#[derive(Clone, Copy, Debug, PartialEq, Eq, Structural)]
pub enum Direction {
    Horizontal,
    Vertical,
}

/// What is asked of one piece of a cut.
#[derive(Clone, Copy, Debug, PartialEq, Eq, Structural)]
pub enum Constraint {
    /// A share of the whole, in percent.
    Percentage(u16),
    /// A fixed number of cells.
    Length(u16),
    /// At least this many cells.
    Min(u16),
}

impl Rect {
    /// The first column to the right of the rectangle.
    pub open spec fn right(self) -> int {
        self.x + self.width
    }

    /// The first row below the rectangle.
    pub open spec fn bottom(self) -> int {
        self.y + self.height
    }

    /// `inner` lies within this rectangle.
    pub open spec fn contains(self, inner: Rect) -> bool {
        &&& self.x <= inner.x
        &&& inner.right() <= self.right()
        &&& self.y <= inner.y
        &&& inner.bottom() <= self.bottom()
    }

    /// Where the rectangle begins along `direction`.
    pub open spec fn start(self, direction: Direction) -> int {
        match direction {
            Direction::Horizontal => self.x as int,
            Direction::Vertical => self.y as int,
        }
    }

    /// Where the rectangle ends along `direction`: the first cell past it.
    pub open spec fn end(self, direction: Direction) -> int {
        match direction {
            Direction::Horizontal => self.right(),
            Direction::Vertical => self.bottom(),
        }
    }

    /// On the axis that `direction` does not cut, `piece` runs across the
    /// whole of this rectangle.
    pub open spec fn spanned_by(self, direction: Direction, piece: Rect) -> bool {
        match direction {
            Direction::Horizontal => piece.y == self.y && piece.height == self.height,
            Direction::Vertical => piece.x == self.x && piece.width == self.width,
        }
    }
}

/// `pieces` are a cut of `area` along `direction`: each runs across the
/// area, all lie within it, and they follow one another without overlap.
pub open spec fn is_cut(direction: Direction, area: Rect, pieces: Seq<Rect>) -> bool {
    &&& forall|i: int|
        0 <= i < pieces.len() ==> {
            &&& area.spanned_by(direction, #[trigger] pieces[i])
            &&& area.start(direction) <= pieces[i].start(direction)
            &&& pieces[i].end(direction) <= area.end(direction)
        }
    &&& forall|i: int, j: int|
        0 <= i < j < pieces.len() ==> #[trigger] pieces[i].end(direction) <= #[trigger] pieces[j].start(
            direction,
        )
}

/// The layout call, asked to cut `area` along `direction` by `constraints`,
/// gave `pieces` for an answer.
///
/// This is a relation between what is asked and what comes back, with no
/// definition here: how the constraints size the pieces is ratatui's layout
/// solver's work. It is no function of the arguments: the solver may answer
/// the same question differently in another run, and every such answer
/// stands in the relation. All that is known of it is that each result of
/// `split` stands in it with the arguments of that call.
pub uninterp spec fn split_gives(
    direction: Direction,
    constraints: Seq<Constraint>,
    area: Rect,
    pieces: Seq<Rect>,
) -> bool;

/// Cuts `area` along `direction` with ratatui's
/// `Layout::new(direction, constraints).split(area)`: a layout with no
/// margin and no spacing.
///
/// Not proved here. That the result is an answer of the call to these
/// arguments is what `split_gives` means. The rest is read from ratatui's
/// source:
/// - one piece comes back for each constraint, in the constraints' order;
/// - on the axis that is not cut, each piece gets the area's position and
///   size, copied from it;
/// - along `direction`, every edge lies between the two ends of the area
///   and the edges ascend. Ratatui hands both to its solver as required
///   constraints, which the solver does not violate, and then rounds each
///   edge to a whole cell.
///
/// Where between those bounds the edges fall is the solver's choice. It is
/// not fixed by the arguments alone, so no more is said of it than that the
/// call gave it.
#[verifier::external_body]
pub(crate) fn split(direction: Direction, constraints: &Vec<Constraint>, area: Rect) -> (pieces: Vec<Rect>)
    ensures
        split_gives(direction, constraints@, area, pieces@),
        pieces@.len() == constraints@.len(),
        is_cut(direction, area, pieces@),
{
    let direction = match direction {
        Direction::Horizontal => layout::Direction::Horizontal,
        Direction::Vertical => layout::Direction::Vertical,
    };
    let constraints = constraints.iter().map(|c| match *c {
        Constraint::Percentage(p) => layout::Constraint::Percentage(p),
        Constraint::Length(n) => layout::Constraint::Length(n),
        Constraint::Min(n) => layout::Constraint::Min(n),
    });
    let area = layout::Rect { x: area.x, y: area.y, width: area.width, height: area.height };
    let pieces = layout::Layout::new(direction, constraints).split(area);
    pieces.iter().map(|r| Rect { x: r.x, y: r.y, width: r.width, height: r.height }).collect()
}

/// The three shares that put a piece of `percent` percent in the middle:
/// what is left over is halved, rounding down, and put on either side.
pub open spec fn centering(percent: u16) -> Seq<Constraint> {
    seq![
        Constraint::Percentage(((100 - percent) / 2) as u16),
        Constraint::Percentage(percent),
        Constraint::Percentage(((100 - percent) / 2) as u16),
    ]
}

/// The constraints that centre a piece of `percent` percent.
pub fn centering_constraints(percent: u16) -> (constraints: Vec<Constraint>)
    requires
        percent <= 100,
    ensures
        constraints@ == centering(percent),
{
    let side: u16 = (100 - percent) / 2;
    vec![Constraint::Percentage(side), Constraint::Percentage(percent), Constraint::Percentage(side)]
}

/// The middle one of three pieces.
pub fn middle(pieces: &Vec<Rect>) -> (piece: Rect)
    requires
        pieces@.len() == 3,
    ensures
        piece == pieces@[1],
{
    pieces[1]
}

/// `pieces` is what the layout call gave for cutting `area` along
/// `direction` by `constraints`, with what is known of every such answer:
/// one piece for each constraint, and together a cut of the area.
pub open spec fn may_split(
    direction: Direction,
    constraints: Seq<Constraint>,
    area: Rect,
    pieces: Seq<Rect>,
) -> bool {
    &&& split_gives(direction, constraints, area, pieces)
    &&& pieces.len() == constraints.len()
    &&& is_cut(direction, area, pieces)
}

/// `popup` is the middle of `r` by way of `rows` and `columns`: `rows` is
/// what the layout call gave for cutting `r` from top to bottom by
/// `centering(percent_y)`, `columns` what it gave for cutting the middle row
/// from left to right by `centering(percent_x)`, and `popup` is the middle
/// column.
///
/// The sizes of the pieces are the layout call's answer to those
/// constraints; no number is stated for them here.
pub open spec fn centres(
    percent_x: u16,
    percent_y: u16,
    r: Rect,
    rows: Seq<Rect>,
    columns: Seq<Rect>,
    popup: Rect,
) -> bool {
    &&& may_split(Direction::Vertical, centering(percent_y), r, rows)
    &&& may_split(Direction::Horizontal, centering(percent_x), rows[1], columns)
    &&& popup == columns[1]
}

/// An area in the middle of `r`: the middle piece of `r` cut from top to
/// bottom by `centering(percent_y)`, cut again from left to right by
/// `centering(percent_x)`. So it lies within `r`. Where the two cuts fall,
/// and with them the popup's size, is what the layout call answers to those
/// constraints.
pub fn centered_rect(percent_x: u16, percent_y: u16, r: Rect) -> (popup: Rect)
    requires
        percent_x <= 100,
        percent_y <= 100,
    ensures
        exists|rows: Seq<Rect>, columns: Seq<Rect>|
            centres(percent_x, percent_y, r, rows, columns, popup),
        r.contains(popup),
{
    let rows = split(Direction::Vertical, &centering_constraints(percent_y), r);
    let row = middle(&rows);
    let columns = split(Direction::Horizontal, &centering_constraints(percent_x), row);
    let popup = middle(&columns);
    assert(centres(percent_x, percent_y, r, rows@, columns@, popup));
    popup
}

} // verus!
