//! What the components share when they paint: their regions of the screen
//! and the border that shows the focus.

use vstd::prelude::*;
use crate::layout::{columns_of, divides, rows_of, Direction, Rect};
use crate::state::State;
use crate::style::{Block, BorderType, Color, Style};

verus! {

/// A column of the body.
#[derive(Debug, Clone, Copy, PartialEq, Eq, Structural)]
pub enum Body {
    LeftColumn,
    RightColumn,
}

/// A place on the screen.
#[derive(Debug, Clone, Copy, PartialEq, Eq, Structural)]
pub enum Element {
    Header,
    Body(Body),
    Footer,
}

/// The region of `position` where `rows` are the header's rows, the body
/// and the footer's rows, and `columns` the body's two columns.
pub open spec fn region_of(rows: Seq<Rect>, columns: Seq<Rect>, position: Element) -> Rect {
    match position {
        Element::Header => rows[0],
        Element::Footer => rows[2],
        Element::Body(Body::LeftColumn) => columns[0],
        Element::Body(Body::RightColumn) => columns[1],
    }
}

/// Picks the region of `position` out of a division of the screen.
pub fn select_region(rows: &Vec<Rect>, columns: &Vec<Rect>, position: Element) -> (region: Rect)
    requires
        rows@.len() == 3,
        columns@.len() == 2,
    ensures
        region == region_of(rows@, columns@, position),
{
    match position {
        Element::Header => rows[0],
        Element::Footer => rows[2],
        Element::Body(Body::LeftColumn) => columns[0],
        Element::Body(Body::RightColumn) => columns[1],
    }
}

/// Whether `region` can be the region of `position` on a screen of `area`:
/// it is picked from a division of `area` into three rows and of the middle
/// row into two columns.
pub open spec fn placed(area: Rect, position: Element, region: Rect) -> bool {
    exists|rows: Seq<Rect>, columns: Seq<Rect>|
        divides(area, Direction::Vertical, 3, rows) && #[trigger] divides(
            rows[1],
            Direction::Horizontal,
            2,
            columns,
        ) && region == region_of(rows, columns, position)
}

/// The region of the screen `area` in which the component at `position`
/// paints: the header on top, the footer at the bottom, the two columns of
/// the body between them.
pub fn prepare_layout(area: Rect, position: Element) -> (region: Rect)
    ensures
        placed(area, position, region),
        position is Header || position is Footer ==> region.x == area.x && region.width
            == area.width,
{
    let rows: Vec<Rect> = rows_of(area);
    let columns: Vec<Rect> = columns_of(rows[1]);
    let region: Rect = select_region(&rows, &columns, position);
    assert(divides(rows@[1], Direction::Horizontal, 2, columns@));
    region
}

/// The border of the component `focused_component` as `focus` asks for it:
/// thick and in `focused_border_color` where the component has the focus,
/// plain and uncoloured where not.
pub open spec fn block_for(focus: usize, focused_component: usize, focused_border_color: Color) -> Block {
    if focus == focused_component {
        Block {
            border_type: BorderType::Thick,
            border_style: Style { fg: Some(focused_border_color), ..Style::plain() },
        }
    } else {
        Block { border_type: BorderType::Plain, border_style: Style::plain() }
    }
}

/// The bordered block around the component `focused_component`.
pub fn get_block(state: &State, focused_component: usize, focused_border_color: Color) -> (block:
    Block)
    ensures
        block == block_for(state.focused_component, focused_component, focused_border_color),
{
    if state.focused_component == focused_component {
        Block {
            border_type: BorderType::Thick,
            border_style: Style::new().fg(focused_border_color),
        }
    } else {
        Block { border_type: BorderType::Plain, border_style: Style::new() }
    }
}

} // verus!
