//! Screen rectangles of the message picker.

use vstd::prelude::*;

use ratatui::layout::Rect;
use ratatui::widgets::{Block, Borders};

verus! {

/// A rectangle of terminal cells: left column, top row, width and height.
#[derive(Clone, Copy, Debug, PartialEq, Eq, Structural)]
pub struct PickRect {
    pub x: u16,
    pub y: u16,
    pub width: u16,
    pub height: u16,
}

impl PickRect {
    /// The column just right of the rectangle, saturating at `u16::MAX`.
    pub open spec fn right_of(self) -> u16 {
        self.x.saturating_add(self.width)
    }

    /// The column just right of the rectangle, saturating at `u16::MAX`.
    pub fn right(&self) -> (r: u16)
        ensures
            r == self.right_of(),
    {
        self.x.saturating_add(self.width)
    }

    /// Whether the cell at `column`, `row` lies on the rectangle's top row.
    pub open spec fn hits_top_row(self, column: u16, row: u16) -> bool {
        row == self.y && self.x <= column && column < self.right_of()
    }
}

/// The area inside a one-cell border on all four sides: ratatui's
/// `Block::inner` for `Borders::ALL` and no padding.
pub open spec fn bordered_inner_of(area: PickRect) -> PickRect {
    PickRect {
        x: if area.x.saturating_add(1) <= area.x.saturating_add(area.width) {
            area.x.saturating_add(1)
        } else {
            area.x.saturating_add(area.width)
        },
        y: if area.y.saturating_add(1) <= area.y.saturating_add(area.height) {
            area.y.saturating_add(1)
        } else {
            area.y.saturating_add(area.height)
        },
        width: area.width.saturating_sub(1).saturating_sub(1),
        height: area.height.saturating_sub(1).saturating_sub(1),
    }
}

/// Calls `ratatui::widgets::Block::inner` on a block with `Borders::ALL` and no
/// padding. The contract restates that method's source for this block: the
/// left and top edges move in by one cell (never past the right or bottom
/// edge) and width and height shrink by two, saturating at zero. Titles do not
/// change the inner area of a block whose top and bottom borders are drawn.
#[verifier::external_body]
pub(crate) fn bordered_inner(area: PickRect) -> (r: PickRect)
    ensures
        r == bordered_inner_of(area),
{
    let rect = Rect { x: area.x, y: area.y, width: area.width, height: area.height };
    let inner = Block::default().borders(Borders::ALL).inner(rect);
    PickRect { x: inner.x, y: inner.y, width: inner.width, height: inner.height }
}

} // verus!
