//! Screen regions and how the screen is divided among the components.
//!
//! The division itself is the work of the terminal library's constraint
//! solver. What several solutions satisfy, the solver decides: this module
//! states of its answer only what holds of every answer, and picks regions
//! out of it.

use vstd::prelude::*;
use ratatui::layout::Constraint as Wanted;
use ratatui::layout::Direction as Way;
use ratatui::layout::Flex as Placing;
use ratatui::layout::Layout;
use ratatui::layout::Rect as Area;

verus! {

/// A rectangle of the screen, in cells.
#[derive(Debug, Clone, Copy, PartialEq, Eq, Structural)]
pub struct Rect {
    /// The column of the left edge.
    pub x: u16,
    /// The row of the top edge.
    pub y: u16,
    pub width: u16,
    pub height: u16,
}

/// The direction in which a region is divided.
#[derive(Debug, Clone, Copy, PartialEq, Eq, Structural)]
pub enum Direction {
    /// Side by side.
    Horizontal,
    /// One below the other.
    Vertical,
}

/// What is asked of one part of a division.
#[derive(Debug, Clone, Copy, PartialEq, Eq, Structural)]
pub enum Constraint {
    /// At most this many cells.
    Max(u16),
    /// This share, in hundredths, of the region that is divided.
    Percentage(u16),
    /// Whatever is left, in this proportion to the other parts that fill.
    Fill(u16),
}

/// Where the parts go when they do not use up the region.
#[derive(Debug, Clone, Copy, PartialEq, Eq, Structural)]
pub enum Flex {
    /// At the start of the region.
    Start,
    /// In the middle of the region.
    Center,
}

/// Whether `part` has the extent of `area` across `direction`: a part of a
/// vertical division is as wide as the region and starts at its left edge,
/// a part of a horizontal division is as high and starts at its top edge.
pub open spec fn spans_across(area: Rect, direction: Direction, part: Rect) -> bool {
    match direction {
        Direction::Vertical => part.x == area.x && part.width == area.width,
        Direction::Horizontal => part.y == area.y && part.height == area.height,
    }
}

/// Whether `parts` can be a division of `area` in `direction` into `count`
/// parts.
pub open spec fn divides(area: Rect, direction: Direction, count: nat, parts: Seq<Rect>) -> bool {
    parts.len() == count && forall|i: int|
        0 <= i < parts.len() ==> spans_across(area, direction, #[trigger] parts[i])
}

/// Divides `area` with `ratatui::layout::Layout::split`, without margin or
/// spacing. The contract claims what the layout's source shows of every
/// answer: there are as many parts as constraints, and each part has the
/// region's extent across the direction of the division. Where the parts
/// lie along that direction, and how long they are, is the solver's answer
/// and is not stated.
#[verifier::external_body]
fn split(area: Rect, direction: Direction, flex: Flex, constraints: &Vec<Constraint>) -> (parts: Vec<
    Rect,
>)
    ensures
        divides(area, direction, constraints@.len(), parts@),
{
    let way = match direction { Direction::Horizontal => Way::Horizontal, Direction::Vertical => Way::Vertical };
    let placing = match flex { Flex::Start => Placing::Start, Flex::Center => Placing::Center };
    let wanted = constraints.iter().map(|c| match *c {
        Constraint::Max(n) => Wanted::Max(n),
        Constraint::Percentage(n) => Wanted::Percentage(n),
        Constraint::Fill(n) => Wanted::Fill(n),
    });
    let whole = Area { x: area.x, y: area.y, width: area.width, height: area.height };
    let parts = Layout::new(way, wanted).flex(placing).split(whole);
    parts.iter().map(|&Area { x, y, width, height }| Rect { x, y, width, height }).collect()
}

/// The middle one of three parts.
pub fn middle_of(parts: &Vec<Rect>) -> (middle: Rect)
    requires
        parts@.len() == 3,
    ensures
        middle == parts@[1],
{
    parts[1]
}

/// Whether `middle` can be the middle column of the middle row of `area`,
/// each taken as the second of three parts.
pub open spec fn centered_in(area: Rect, middle: Rect) -> bool {
    exists|rows: Seq<Rect>, columns: Seq<Rect>|
        divides(area, Direction::Vertical, 3, rows) && #[trigger] divides(
            rows[1],
            Direction::Horizontal,
            3,
            columns,
        ) && middle == columns[1]
}

/// The region in the middle of `area`: of its rows the middle fifth, and of
/// that band's columns the middle fifth.
pub fn centered_layout(area: Rect) -> (middle: Rect)
    ensures
        centered_in(area, middle),
{
    let mut fifths: Vec<Constraint> = Vec::new();
    fifths.push(Constraint::Percentage(40));
    fifths.push(Constraint::Percentage(20));
    fifths.push(Constraint::Percentage(40));
    let rows: Vec<Rect> = split(area, Direction::Vertical, Flex::Start, &fifths);
    let band: Rect = middle_of(&rows);
    let columns: Vec<Rect> = split(band, Direction::Horizontal, Flex::Start, &fifths);
    assert(divides(rows@[1], Direction::Horizontal, 3, columns@));
    middle_of(&columns)
}

/// Whether `popup` can be a region centred in `area`: a single column of a
/// single row of it.
pub open spec fn popup_in(area: Rect, popup: Rect) -> bool {
    exists|rows: Seq<Rect>, columns: Seq<Rect>|
        divides(area, Direction::Vertical, 1, rows) && #[trigger] divides(
            rows[0],
            Direction::Horizontal,
            1,
            columns,
        ) && popup == columns[0]
}

/// A region centred in `area` that takes `percent_x` hundredths of its
/// width and `percent_y` hundredths of its height.
pub fn popup_area(area: Rect, percent_x: u16, percent_y: u16) -> (popup: Rect)
    ensures
        popup_in(area, popup),
{
    let mut vertical: Vec<Constraint> = Vec::new();
    vertical.push(Constraint::Percentage(percent_y));
    let mut horizontal: Vec<Constraint> = Vec::new();
    horizontal.push(Constraint::Percentage(percent_x));
    let rows: Vec<Rect> = split(area, Direction::Vertical, Flex::Center, &vertical);
    let band: Rect = rows[0];
    let columns: Vec<Rect> = split(band, Direction::Horizontal, Flex::Center, &horizontal);
    assert(divides(rows@[0], Direction::Horizontal, 1, columns@));
    columns[0]
}

/// Divides `area` into a left and a right half.
pub fn halves(area: Rect) -> (parts: (Rect, Rect))
    ensures
        divides(area, Direction::Horizontal, 2, seq![parts.0, parts.1]),
{
    let mut wanted: Vec<Constraint> = Vec::new();
    wanted.push(Constraint::Percentage(50));
    wanted.push(Constraint::Percentage(50));
    let columns: Vec<Rect> = split(area, Direction::Horizontal, Flex::Start, &wanted);
    assert(seq![columns@[0], columns@[1]] =~= columns@);
    (columns[0], columns[1])
}

/// Divides `area` into the header's rows, the body and the footer's rows:
/// at most 2 rows on top, at most 3 at the bottom, the rest between them.
pub fn rows_of(area: Rect) -> (rows: Vec<Rect>)
    ensures
        divides(area, Direction::Vertical, 3, rows@),
{
    let mut wanted: Vec<Constraint> = Vec::new();
    wanted.push(Constraint::Max(2));
    wanted.push(Constraint::Fill(1));
    wanted.push(Constraint::Max(3));
    split(area, Direction::Vertical, Flex::Start, &wanted)
}

/// Divides the body into its two columns: 15 hundredths on the left for the
/// project selector, 85 on the right for the pipelines.
pub fn columns_of(body: Rect) -> (columns: Vec<Rect>)
    ensures
        divides(body, Direction::Horizontal, 2, columns@),
{
    let mut wanted: Vec<Constraint> = Vec::new();
    wanted.push(Constraint::Percentage(15));
    wanted.push(Constraint::Percentage(85));
    split(body, Direction::Horizontal, Flex::Start, &wanted)
}

} // verus!
