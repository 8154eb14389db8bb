use vstd::prelude::*;
use vstd::set_lib::{lemma_int_range, set_int_range};
use crate::draw::{cell, Draw, Shade};
use crate::position::Position;

verus! {

/// A vertical bar one cell wide: its top cell, the number of rows it spans,
/// how it is painted, and its owner's score.
#[derive(Clone, Copy, Debug, PartialEq, Eq, Structural)]
pub struct Paddle {
    pub position: Position,
    pub height: u16,
    pub shade: Shade,
    pub score: u16,
}

impl Paddle {
    /// The paddle spans at least one row, and its last row is a valid row.
    pub open spec fn wf(&self) -> bool {
        self.height >= 1 && self.position.y + self.height - 1 <= u16::MAX
    }

    /// Whether `row` lies in `[top, top + height - 1]`.
    pub open spec fn occupies(&self, row: int) -> bool {
        self.position.y <= row < self.position.y + self.height
    }

    /// The set of rows that the paddle covers.
    pub open spec fn span(&self) -> Set<int> {
        set_int_range(self.position.y as int, self.position.y + self.height)
    }

    /// The same paddle with its top row at `y`.
    pub open spec fn at_row(&self, y: int) -> Paddle {
        Paddle { position: Position { x: self.position.x, y: y as u16 }, ..*self }
    }

    /// The cells that paint the whole paddle, top to bottom.
    pub open spec fn cells(&self) -> Seq<Draw> {
        Seq::new(self.height as nat, |i: int| cell(self.position.x as int, self.position.y + i, self.shade))
    }

    /// The paddle after one autonomous step towards `row`: none when `row` is
    /// in the span, else one row down when its top is above `row`, else one
    /// row up.
    pub open spec fn stepped_towards(&self, row: int) -> Paddle {
        if self.occupies(row) {
            *self
        } else if self.position.y < row {
            self.at_row(self.position.y + 1)
        } else {
            self.at_row(self.position.y - 1)
        }
    }

    /// Moving up erases the bottom cell and paints the cell above the top.
    pub open spec fn up_draws(&self) -> Seq<Draw> {
        seq![
            cell(self.position.x as int, self.position.y + self.height - 1, Shade::Blank),
            cell(self.position.x as int, self.position.y - 1, self.shade),
        ]
    }

    /// Moving down erases the top cell and paints the cell below the bottom.
    pub open spec fn down_draws(&self) -> Seq<Draw> {
        seq![
            cell(self.position.x as int, self.position.y as int, Shade::Blank),
            cell(self.position.x as int, self.position.y + self.height, self.shade),
        ]
    }

    /// The drawing operations of one autonomous step towards `row`.
    pub open spec fn draws_towards(&self, row: int) -> Seq<Draw> {
        if self.occupies(row) {
            Seq::empty()
        } else if self.position.y < row {
            self.down_draws()
        } else {
            self.up_draws()
        }
    }

    pub fn new(position: Position, height: u16, shade: Shade) -> (r: Paddle)
        ensures
            r == (Paddle { position, height, shade, score: 0 }),
    {
        Paddle { position, height, shade, score: 0 }
    }

    /// The drawing operations that paint every cell of the paddle.
    pub fn render(&self) -> (r: Vec<Draw>)
        requires
            self.wf(),
        ensures
            r@ == self.cells(),
    {
        let mut r: Vec<Draw> = Vec::new();
        let mut i: u16 = 0;
        while i < self.height
            invariant
                self.wf(),
                i <= self.height,
                r@ == self.cells().take(i as int),
            decreases self.height - i,
        {
            r.push(Draw::Cell { x: self.position.x, y: self.position.y + i, shade: self.shade });
            i = i + 1;
            assert(r@ =~= self.cells().take(i as int));
        }
        assert(r@ =~= self.cells());
        r
    }

    /// Moves the paddle up one row: its bottom cell is erased and the new top
    /// cell painted. The caller checks that the row above is free.
    pub fn try_move_up(&mut self) -> (r: Vec<Draw>)
        requires
            old(self).wf(),
            old(self).position.y >= 1,
        ensures
            *final(self) == old(self).at_row(old(self).position.y - 1),
            final(self).wf(),
            r@ == old(self).up_draws(),
    {
        let bottom = self.position.y + (self.height - 1);
        let mut r: Vec<Draw> = Vec::new();
        r.push(Draw::Cell { x: self.position.x, y: bottom, shade: Shade::Blank });
        self.position.y = self.position.y - 1;
        r.push(Draw::Cell { x: self.position.x, y: self.position.y, shade: self.shade });
        r
    }

    /// Moves the paddle down one row: its top cell is erased and the new
    /// bottom cell painted. The caller checks that the row below is free.
    pub fn try_move_down(&mut self) -> (r: Vec<Draw>)
        requires
            old(self).wf(),
            old(self).position.y + old(self).height <= u16::MAX,
        ensures
            *final(self) == old(self).at_row(old(self).position.y + 1),
            final(self).wf(),
            r@ == old(self).down_draws(),
    {
        let mut r: Vec<Draw> = Vec::new();
        r.push(Draw::Cell { x: self.position.x, y: self.position.y, shade: Shade::Blank });
        self.position.y = self.position.y + 1;
        r.push(Draw::Cell { x: self.position.x, y: self.position.y + (self.height - 1), shade: self.shade });
        r
    }

    /// One step of the autonomous player towards row `ball_pos_y`: nothing when
    /// the paddle already covers that row, else one row towards it.
    pub fn try_move_auto(&mut self, ball_pos_y: u16) -> (r: Vec<Draw>)
        requires
            old(self).wf(),
        ensures
            *final(self) == old(self).stepped_towards(ball_pos_y as int),
            final(self).wf(),
            r@ == old(self).draws_towards(ball_pos_y as int),
    {
        if !(ball_pos_y >= self.position.y && ball_pos_y - self.position.y < self.height) {
            if self.position.y < ball_pos_y {
                self.try_move_down()
            } else {
                self.try_move_up()
            }
        } else {
            Vec::new()
        }
    }
}

/// The span of a paddle holds exactly `height` rows, and a move up or down
/// shifts every row of it by one without changing its length.
pub proof fn lemma_moves_shift_span(p: Paddle)
    requires
        p.wf(),
    ensures
        p.span().len() == p.height,
        p.position.y >= 1 ==> {
            let q = p.at_row(p.position.y - 1);
            &&& q.span().len() == p.height
            &&& forall|row: int| q.occupies(row) <==> p.occupies(row + 1)
        },
        p.position.y + p.height <= u16::MAX ==> {
            let q = p.at_row(p.position.y + 1);
            &&& q.span().len() == p.height
            &&& forall|row: int| q.occupies(row) <==> p.occupies(row - 1)
        },
{
    let y = p.position.y as int;
    let h = p.height as int;
    lemma_int_range(y, y + h);
    if y >= 1 {
        lemma_int_range(y - 1, y - 1 + h);
    }
    if y + h <= u16::MAX {
        lemma_int_range(y + 1, y + 1 + h);
    }
}

} // verus!
