use vstd::prelude::*;
use crate::draw::{cell, Draw, Shade};
use crate::paddle::Paddle;
use crate::position::Position;
use crate::velocity::{is_sign, Velocity};

verus! {

/// The ball: one cell that moves one step per axis on every tick.
#[derive(Clone, Copy, Debug, PartialEq, Eq, Structural)]
pub struct Ball {
    pub position: Position,
    pub velocity: Velocity,
}

/// A coordinate moved by `d`, modulo the range of `u16`.
pub open spec fn shift(c: u16, d: i16) -> u16 {
    if c + d < 0 {
        (c + d + 0x10000) as u16
    } else if c + d > u16::MAX {
        (c + d - 0x10000) as u16
    } else {
        (c + d) as u16
    }
}

/// Whether `row` lies within two cells of the top or the bottom border of a
/// surface `height` rows tall.
pub open spec fn near_wall(row: int, height: int) -> bool {
    row <= 2 || row >= height - 3
}

/// The column just in front of the left paddle's face.
pub open spec fn left_front(p: Paddle) -> int {
    p.position.x + 2
}

/// The column just in front of the right paddle's face.
pub open spec fn right_front(p: Paddle) -> int {
    p.position.x - 2
}

impl Ball {
    /// Whether the ball's row lies in the paddle's span.
    pub open spec fn in_span(&self, p: Paddle) -> bool {
        p.occupies(self.position.y as int)
    }

    /// The velocity after collisions are resolved against the position before
    /// the move; the first rule that applies wins: a wall inverts the vertical
    /// sign; a paddle whose front column the ball is on, and whose span holds
    /// the ball's row, inverts the horizontal sign.
    pub open spec fn bounced(&self, height: int, left: Paddle, right: Paddle) -> Velocity {
        let v = self.velocity;
        if near_wall(self.position.y as int, height) {
            Velocity { x: v.x, y: -v.y as i16 }
        } else if self.position.x == left_front(left) {
            if self.in_span(left) { Velocity { x: -v.x as i16, y: v.y } } else { v }
        } else if self.position.x == right_front(right) {
            if self.in_span(right) { Velocity { x: -v.x as i16, y: v.y } } else { v }
        } else {
            v
        }
    }

    /// The ball one tick later.
    pub open spec fn ticked(&self, height: int, left: Paddle, right: Paddle) -> Ball {
        let v = self.bounced(height, left, right);
        Ball { position: Position { x: shift(self.position.x, v.x), y: shift(self.position.y, v.y) }, velocity: v }
    }

    /// The ball after a reset on a `width` by `height` surface, with `sign` as
    /// the factor applied to the vertical direction.
    pub open spec fn recentered(&self, width: u16, height: u16, sign: i16) -> Ball {
        Ball {
            position: Position { x: width / 2, y: height / 2 },
            velocity: Velocity { x: -self.velocity.x as i16, y: (self.velocity.y * sign) as i16 },
        }
    }

    pub fn new(position: Position, velocity: Velocity) -> (r: Ball)
        ensures
            r == (Ball { position, velocity }),
    {
        Ball { position, velocity }
    }

    /// One tick: erase the ball, resolve collisions on the position before
    /// the move, take one step, and paint the ball at its new cell.
    pub fn handle_move(&mut self, height: u16, leftpaddle: &Paddle, rightpaddle: &Paddle) -> (r: Vec<Draw>)
        requires
            old(self).velocity.is_unit(),
        ensures
            *final(self) == old(self).ticked(height as int, *leftpaddle, *rightpaddle),
            final(self).velocity.is_unit(),
            r@ == seq![
                cell(old(self).position.x as int, old(self).position.y as int, Shade::Blank),
                cell(final(self).position.x as int, final(self).position.y as int, Shade::Ball),
            ],
    {
        let mut r: Vec<Draw> = Vec::new();
        r.push(self.clear());
        self.handle_collision(height, leftpaddle, rightpaddle);
        self.handle_movement();
        r.push(Draw::Cell { x: self.position.x, y: self.position.y, shade: Shade::Ball });
        r
    }

    /// Whether the ball's row lies in the paddle's span.
    pub fn check_inside_paddle(&self, paddle: &Paddle) -> (r: bool)
        ensures
            r == self.in_span(*paddle),
    {
        self.position.y >= paddle.position.y && self.position.y - paddle.position.y < paddle.height
    }

    /// Puts the ball back in the middle of the surface, sends it the other
    /// way horizontally, and draws its vertical direction at random.
    pub fn reset(&mut self, width: u16, height: u16) -> (r: Vec<Draw>)
        requires
            old(self).velocity.is_unit(),
        ensures
            final(self).position == (Position { x: width / 2, y: height / 2 }),
            final(self).velocity.x == -old(self).velocity.x,
            final(self).velocity.is_unit(),
            r@ == seq![cell(old(self).position.x as int, old(self).position.y as int, Shade::Blank)],
    {
        let sign = Velocity::get();
        self.reset_with(width, height, sign)
    }

    /// A reset with a given factor `sign` for the vertical direction.
    pub fn reset_with(&mut self, width: u16, height: u16, sign: i16) -> (r: Vec<Draw>)
        requires
            old(self).velocity.is_unit(),
            is_sign(sign),
        ensures
            *final(self) == old(self).recentered(width, height, sign),
            final(self).velocity.is_unit(),
            r@ == seq![cell(old(self).position.x as int, old(self).position.y as int, Shade::Blank)],
    {
        let mut r: Vec<Draw> = Vec::new();
        r.push(self.clear());
        self.position.x = width / 2;
        self.position.y = height / 2;
        self.velocity.x = -self.velocity.x;
        self.velocity.y = self.velocity.y * sign;
        r
    }

    fn clear(&self) -> (r: Draw)
        ensures
            r == cell(self.position.x as int, self.position.y as int, Shade::Blank),
    {
        Draw::Cell { x: self.position.x, y: self.position.y, shade: Shade::Blank }
    }

    fn handle_movement(&mut self)
        ensures
            final(self).velocity == old(self).velocity,
            final(self).position.x == shift(old(self).position.x, old(self).velocity.x),
            final(self).position.y == shift(old(self).position.y, old(self).velocity.y),
    {
        self.position.x = self.position.x.wrapping_add_signed(self.velocity.x);
        self.position.y = self.position.y.wrapping_add_signed(self.velocity.y);
    }

    fn handle_collision(&mut self, height: u16, leftpaddle: &Paddle, rightpaddle: &Paddle)
        requires
            old(self).velocity.is_unit(),
        ensures
            final(self).position == old(self).position,
            final(self).velocity == old(self).bounced(height as int, *leftpaddle, *rightpaddle),
    {
        let y = self.position.y;
        let x = self.position.x;
        if y <= 2 || y as u32 + 3 >= height as u32 {
            self.velocity.y = -self.velocity.y;
        } else if x >= 2 && x - 2 == leftpaddle.position.x {
            if self.check_inside_paddle(leftpaddle) {
                self.velocity.x = -self.velocity.x;
            }
        } else if rightpaddle.position.x >= 2 && rightpaddle.position.x - 2 == x {
            if self.check_inside_paddle(rightpaddle) {
                self.velocity.x = -self.velocity.x;
            }
        }
    }
}

/// A ball in normal flight on a surface `height` rows tall: unit velocity,
/// at least two rows clear of the top and bottom borders, and heading away
/// from a wall it touches.
pub open spec fn in_flight(b: Ball, height: int) -> bool {
    &&& b.velocity.is_unit()
    &&& 2 <= b.position.y <= height - 3
    &&& b.position.y == 2 ==> b.velocity.y == -1
    &&& b.position.y == height - 3 ==> b.velocity.y == 1
}

/// A tick keeps the ball inside the border: from normal flight between the
/// goal lines, the ball lands on a row in `[2, height - 3]` and a column in
/// `[1, width - 2]`, still in normal flight.
pub proof fn lemma_tick_keeps_ball_inside(b: Ball, width: u16, height: u16, left: Paddle, right: Paddle)
    requires
        height >= 5,
        in_flight(b, height as int),
        3 <= b.position.x <= width - 4,
    ensures
        2 <= b.ticked(height as int, left, right).position.y <= height - 3,
        1 <= b.ticked(height as int, left, right).position.x <= width - 2,
        in_flight(b.ticked(height as int, left, right), height as int),
{
    let v = b.bounced(height as int, left, right);
    let y = b.position.y as int;
    if near_wall(y, height as int) {
        assert(v.y == -b.velocity.y);
    } else {
        assert(v.y == b.velocity.y);
    }
    assert(v.x == b.velocity.x || v.x == -b.velocity.x);
    assert(shift(b.position.x, v.x) == b.position.x + v.x);
    assert(shift(b.position.y, v.y) == b.position.y + v.y);
}

/// A reset puts the ball in normal flight, whichever vertical sign it draws,
/// on a surface at least 7 rows tall (on a lower one the middle row is a
/// row next to a wall).
pub proof fn lemma_reset_starts_flight(b: Ball, width: u16, height: u16, sign: i16)
    requires
        height >= 7,
        b.velocity.is_unit(),
        is_sign(sign),
    ensures
        in_flight(b.recentered(width, height, sign), height as int),
{
}

/// A tick keeps each velocity component at magnitude one, only its sign may
/// change, and it changes the sign of at most one axis.
pub proof fn lemma_tick_flips_one_sign(b: Ball, height: int, left: Paddle, right: Paddle)
    requires
        b.velocity.is_unit(),
    ensures
        b.ticked(height, left, right).velocity.is_unit(),
        b.ticked(height, left, right).velocity.x == b.velocity.x
            || b.ticked(height, left, right).velocity.x == -b.velocity.x,
        b.ticked(height, left, right).velocity.y == b.velocity.y
            || b.ticked(height, left, right).velocity.y == -b.velocity.y,
        b.ticked(height, left, right).velocity.x == b.velocity.x
            || b.ticked(height, left, right).velocity.y == b.velocity.y,
{
}

} // verus!
