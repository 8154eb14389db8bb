use vstd::prelude::*;

verus! {

/// What a drawn cell shows.
#[derive(Clone, Copy, Debug, PartialEq, Eq, Structural)]
pub enum Shade {
    /// An erased cell.
    Blank,
    Ball,
    Border,
    LeftPaddle,
    RightPaddle,
}

/// A line of text that the display lays out around an anchor column.
#[derive(Clone, Copy, Debug, PartialEq, Eq, Structural)]
pub enum Label {
    /// The human player's score, on the top border.
    YourScore(u16),
    /// The computer player's score, on the top border.
    ComputerScore(u16),
    /// The closing line with both scores: the human's, then the computer's.
    FinalScore(u16, u16),
}

/// One operation on the display surface.
#[derive(Clone, Copy, Debug, PartialEq, Eq, Structural)]
pub enum Draw {
    /// Erase the whole surface.
    ClearScreen,
    /// Paint the cell at column `x`, row `y`.
    Cell { x: u16, y: u16, shade: Shade },
    /// Write `label` on row `y`, centred on column `x`.
    Text { x: u16, y: u16, label: Label },
}

pub open spec fn cell(x: int, y: int, shade: Shade) -> Draw {
    Draw::Cell { x: x as u16, y: y as u16, shade }
}

/// The column where a text of `len` characters starts so that its middle
/// falls on column `anchor`; a text wider than twice the anchor starts at
/// the left edge.
pub fn centered_column(anchor: u16, len: usize) -> (r: u16)
    ensures
        len / 2 <= anchor ==> r == anchor - len / 2,
        len / 2 > anchor ==> r == 0,
{
    let half = len / 2;
    if half <= anchor as usize {
        anchor - half as u16
    } else {
        0
    }
}

} // verus!
