use vstd::prelude::*;
use vstd::arithmetic::div_mod::{lemma_fundamental_div_mod, lemma_mod_bound};
use crate::ball::Ball;
use crate::command::Command;
use crate::draw::{cell, Draw, Label, Shade};
use crate::paddle::Paddle;
use crate::position::Position;
use crate::velocity::{is_sign, Velocity};

verus! {

/// Columns between a side border and the paddle on that side.
pub const PADDING: u16 = 5;

/// The narrowest playable surface: the goal lines, left of column 3 and
/// right of column `width - 4`, never meet.
pub const MIN_WIDTH: u16 = 8;

/// The lowest playable surface: the ball's rows `[2, height - 3]` are not
/// empty.
pub const MIN_HEIGHT: u16 = 5;

/// The lowest surface that a resize accepts: paddles, a quarter of its
/// height tall, keep at least one row.
pub const MIN_RESIZE_HEIGHT: u16 = 4;

/// Milliseconds between two ball ticks; also the input poll's timeout.
pub const TICK_INTERVAL_MS: u64 = 5;

/// The whole game: the surface, both paddles, the ball, and the time of the
/// next ball tick. The left paddle is the human's, the right one the
/// computer's.
pub struct Pong {
    pub width: u16,
    pub height: u16,
    pub padding: u16,
    /// Milliseconds between two ball ticks.
    pub interval: u64,
    /// The earliest time, in milliseconds, of the next ball tick.
    pub next_tick: u64,
    pub ball: Ball,
    pub left_paddle: Paddle,
    pub right_paddle: Paddle,
}

/// The outcome of one iteration of the game loop.
pub struct Frame {
    /// False once the player asked to leave.
    pub running: bool,
    /// What the display should do, in order.
    pub draws: Vec<Draw>,
}

/// `pre_pos` mapped from an extent of `pre_length` cells to one of
/// `new_length` cells, rounded up, and capped at the largest `u16`.
pub open spec fn rescaled(pre_length: int, new_length: int, pre_pos: int) -> int {
    let c = (pre_pos * new_length + pre_length - 1) / pre_length;
    if c > u16::MAX { u16::MAX as int } else { c }
}

/// A paddle's top row kept where a paddle `paddle_height` rows tall stays
/// inside the border of a surface `height` rows tall.
pub open spec fn fitted_row(row: int, paddle_height: int, height: int) -> int {
    if row < 1 {
        1
    } else if row > height - 1 - paddle_height {
        height - 1 - paddle_height
    } else {
        row
    }
}

/// The border cells of column `x` on a `width` by `height` surface, top to
/// bottom.
pub open spec fn border_column(x: int, width: int, height: int) -> Seq<Draw> {
    if x == 0 || x == width - 1 {
        Seq::new(height as nat, |y: int| cell(x, y, Shade::Border))
    } else if height == 1 {
        seq![cell(x, 0, Shade::Border)]
    } else {
        seq![cell(x, 0, Shade::Border), cell(x, height - 1, Shade::Border)]
    }
}

/// The border cells of the first `n` columns, column by column.
pub open spec fn border_prefix(n: nat, width: int, height: int) -> Seq<Draw>
    decreases n,
{
    if n == 0 {
        Seq::empty()
    } else {
        border_prefix((n - 1) as nat, width, height) + border_column(n - 1, width, height)
    }
}

/// Maps a coordinate from an extent of `pre_length` cells to one of
/// `new_length` cells, keeping its proportion and rounding up.
pub fn rescale(pre_length: u16, new_length: u16, pre_obj_pos: u16) -> (r: u16)
    requires
        pre_length > 0,
    ensures
        r == rescaled(pre_length as int, new_length as int, pre_obj_pos as int),
{
    let p = pre_obj_pos as u64;
    let n = new_length as u64;
    assert(p * n <= 0xffff * 0xffff) by (nonlinear_arith)
        requires p <= 0xffff, n <= 0xffff;
    let c = (p * n + (pre_length as u64 - 1)) / pre_length as u64;
    if c > u16::MAX as u64 {
        u16::MAX
    } else {
        c as u16
    }
}

fn fit_row(row: u16, paddle_height: u16, height: u16) -> (r: u16)
    requires
        paddle_height + 2 <= height,
    ensures
        r == fitted_row(row as int, paddle_height as int, height as int),
{
    if row < 1 {
        1
    } else if row > height - 1 - paddle_height {
        height - 1 - paddle_height
    } else {
        row
    }
}

impl Pong {
    /// The surface has a column for each paddle and is at least
    /// `MIN_RESIZE_HEIGHT` rows tall, the paddles have a quarter of its height,
    /// stand at their columns and keep inside the border, and the ball moves
    /// one cell per axis.
    pub open spec fn wf(&self) -> bool {
        &&& self.padding + 1 <= self.width
        &&& MIN_RESIZE_HEIGHT <= self.height
        &&& self.padding == PADDING
        &&& self.interval == TICK_INTERVAL_MS
        &&& self.left_paddle.wf()
        &&& self.right_paddle.wf()
        &&& self.left_paddle.height == self.height / 4
        &&& self.right_paddle.height == self.height / 4
        &&& self.left_paddle.position.x == self.padding
        &&& self.right_paddle.position.x == self.width - self.padding - 1
        &&& self.left_paddle.shade == Shade::LeftPaddle
        &&& self.right_paddle.shade == Shade::RightPaddle
        &&& self.ball.velocity.is_unit()
        &&& self.inside_border(self.left_paddle)
        &&& self.inside_border(self.right_paddle)
    }

    /// The paddle's rows lie in `[1, height - 2]`, inside the border.
    pub open spec fn inside_border(&self, p: Paddle) -> bool {
        1 <= p.position.y && p.position.y + p.height <= self.height - 1
    }

    /// The row that the paddles track: the ball's row, taken inside the
    /// border, so that no autonomous step leaves the border.
    pub open spec fn target_row(&self) -> int {
        if self.ball.position.y < 1 {
            1
        } else if self.ball.position.y > self.height - 2 {
            self.height - 2
        } else {
            self.ball.position.y as int
        }
    }

    /// The ball is between the two goal lines.
    pub open spec fn in_play(&self) -> bool {
        3 <= self.ball.position.x <= self.width - 4
    }

    /// The drawing operations of the border, column by column.
    pub open spec fn border(&self) -> Seq<Draw> {
        border_prefix(self.width as nat, self.width as int, self.height as int)
    }

    /// The score line on the top border.
    pub open spec fn scores(&self) -> Seq<Draw> {
        seq![
            Draw::Text { x: self.width / 4, y: 0, label: Label::YourScore(self.left_paddle.score) },
            Draw::Text { x: (self.width - self.width / 4) as u16, y: 0, label: Label::ComputerScore(self.right_paddle.score) },
        ]
    }

    /// A full picture of the game on a cleared surface.
    pub open spec fn picture(&self) -> Seq<Draw> {
        seq![Draw::ClearScreen] + self.border() + self.scores() + self.left_paddle.cells() + self.right_paddle.cells()
    }

    /// A game on a `width` by `height` surface: each paddle a quarter of the
    /// height tall, level with the middle, `PADDING` columns in from its
    /// border; the ball in the middle, with random directions.
    pub fn new(width: u16, height: u16) -> (r: Pong)
        requires
            MIN_WIDTH <= width,
            MIN_HEIGHT <= height,
        ensures
            r.wf(),
            r.in_play(),
            r.width == width,
            r.height == height,
            r.next_tick == 0,
            r.ball.position == (Position { x: width / 2, y: height / 2 }),
            r.left_paddle == (Paddle {
                position: Position { x: PADDING, y: (height / 2 - height / 8) as u16 },
                height: height / 4,
                shade: Shade::LeftPaddle,
                score: 0,
            }),
            r.right_paddle == (Paddle {
                position: Position { x: (width - PADDING - 1) as u16, y: (height / 2 - height / 8) as u16 },
                height: height / 4,
                shade: Shade::RightPaddle,
                score: 0,
            }),
    {
        let padding = PADDING;
        let top = height / 2 - height / 8;
        Pong {
            width,
            height,
            padding,
            interval: TICK_INTERVAL_MS,
            next_tick: 0,
            ball: Ball::new(Position::new(width / 2, height / 2), Velocity::new()),
            left_paddle: Paddle::new(Position::new(padding, top), height / 4, Shade::LeftPaddle),
            right_paddle: Paddle::new(Position::new(width - padding - 1, top), height / 4, Shade::RightPaddle),
        }
    }

    /// The drawing operations of the border: every cell of the first and
    /// last rows and columns.
    pub fn render_border(&self) -> (r: Vec<Draw>)
        requires
            self.height >= 1,
        ensures
            r@ == self.border(),
    {
        let mut r: Vec<Draw> = Vec::new();
        let mut x: u16 = 0;
        while x < self.width
            invariant
                self.height >= 1,
                x <= self.width,
                r@ == border_prefix(x as nat, self.width as int, self.height as int),
            decreases self.width - x,
        {
            if x == 0 || x == self.width - 1 {
                let ghost start = r@;
                let mut y: u16 = 0;
                while y < self.height
                    invariant
                        y <= self.height,
                        x < self.width,
                        x == 0 || x == self.width - 1,
                        r@ == start + border_column(x as int, self.width as int, self.height as int).take(y as int),
                    decreases self.height - y,
                {
                    r.push(Draw::Cell { x, y, shade: Shade::Border });
                    y = y + 1;
                    assert(r@ =~= start + border_column(x as int, self.width as int, self.height as int).take(y as int));
                }
                assert(border_column(x as int, self.width as int, self.height as int).take(self.height as int)
                    =~= border_column(x as int, self.width as int, self.height as int));
            } else if self.height == 1 {
                r.push(Draw::Cell { x, y: 0, shade: Shade::Border });
                assert(r@ =~= border_prefix(x as nat, self.width as int, self.height as int)
                    + border_column(x as int, self.width as int, self.height as int));
            } else {
                r.push(Draw::Cell { x, y: 0, shade: Shade::Border });
                r.push(Draw::Cell { x, y: self.height - 1, shade: Shade::Border });
                assert(r@ =~= border_prefix(x as nat, self.width as int, self.height as int)
                    + border_column(x as int, self.width as int, self.height as int));
            }
            x = x + 1;
        }
        r
    }

    /// The drawing operations of the score line.
    pub fn render_score(&self) -> (r: Vec<Draw>)
        ensures
            r@ == self.scores(),
    {
        let mut r: Vec<Draw> = Vec::new();
        r.push(Draw::Text { x: self.width / 4, y: 0, label: Label::YourScore(self.left_paddle.score) });
        r.push(Draw::Text {
            x: self.width - self.width / 4,
            y: 0,
            label: Label::ComputerScore(self.right_paddle.score),
        });
        r
    }

    /// The opening picture: a cleared surface, the border, the score line and
    /// both paddles.
    pub fn render_all(&self) -> (r: Vec<Draw>)
        requires
            self.wf(),
        ensures
            r@ == self.picture(),
    {
        let mut r: Vec<Draw> = Vec::new();
        r.push(Draw::ClearScreen);
        let mut border = self.render_border();
        r.append(&mut border);
        let mut scores = self.render_score();
        r.append(&mut scores);
        let mut left = self.left_paddle.render();
        r.append(&mut left);
        let mut right = self.right_paddle.render();
        r.append(&mut right);
        r
    }

    /// The game after the surface became `width` by `height`: paddles a
    /// quarter of the new height tall, every coordinate mapped in proportion
    /// to the new extent of its axis, paddle rows kept inside the border, the
    /// right paddle `padding` columns in from the new right border. A surface
    /// with no column for the right paddle (narrower than `padding + 1`), or
    /// lower than `MIN_RESIZE_HEIGHT`, where a paddle would have no row, is
    /// refused and changes nothing.
    pub open spec fn resized(&self, width: u16, height: u16) -> Pong {
        if width < self.padding + 1 || height < MIN_RESIZE_HEIGHT {
            *self
        } else {
            let ph = (height / 4) as u16;
            let left_row = rescaled(self.height as int, height as int, self.left_paddle.position.y as int);
            let right_row = rescaled(self.height as int, height as int, self.right_paddle.position.y as int);
            Pong {
                width,
                height,
                ball: Ball {
                    position: Position {
                        x: rescaled(self.width as int, width as int, self.ball.position.x as int) as u16,
                        y: rescaled(self.height as int, height as int, self.ball.position.y as int) as u16,
                    },
                    velocity: self.ball.velocity,
                },
                left_paddle: Paddle {
                    position: Position { x: self.padding, y: fitted_row(left_row, ph as int, height as int) as u16 },
                    height: ph,
                    ..self.left_paddle
                },
                right_paddle: Paddle {
                    position: Position {
                        x: (width - self.padding - 1) as u16,
                        y: fitted_row(right_row, ph as int, height as int) as u16,
                    },
                    height: ph,
                    ..self.right_paddle
                },
                ..*self
            }
        }
    }

    /// What a resize draws: the whole new picture, or nothing when ignored.
    pub open spec fn resize_draws(&self, width: u16, height: u16) -> Seq<Draw> {
        if width < self.padding + 1 || height < MIN_RESIZE_HEIGHT {
            Seq::empty()
        } else {
            self.resized(width, height).picture()
        }
    }

    /// Rescales the game to a surface of `width` by `height` cells and
    /// redraws it.
    pub fn resize(&mut self, width: u16, height: u16) -> (r: Vec<Draw>)
        requires
            old(self).wf(),
        ensures
            *final(self) == old(self).resized(width, height),
            final(self).wf(),
            r@ == old(self).resize_draws(width, height),
    {
        if width < self.padding + 1 || height < MIN_RESIZE_HEIGHT {
            return Vec::new();
        }
        let ph = height / 4;
        self.left_paddle.height = ph;
        self.right_paddle.height = ph;
        let left_row = fit_row(rescale(self.height, height, self.left_paddle.position.y), ph, height);
        self.left_paddle.position = Position::new(self.padding, left_row);
        let right_row = fit_row(rescale(self.height, height, self.right_paddle.position.y), ph, height);
        self.right_paddle.position = Position::new(width - self.padding - 1, right_row);
        self.ball.position = Position::new(
            rescale(self.width, width, self.ball.position.x),
            rescale(self.height, height, self.ball.position.y),
        );
        self.width = width;
        self.height = height;
        self.render_all()
    }

    /// The game after the goal check, with `sign` as the factor of a reset's
    /// vertical direction: a ball left of column 3 is a point for the right
    /// player, one right of column `width - 4` a point for the left player;
    /// either way the ball is reset.
    pub open spec fn scored(&self, sign: i16) -> Pong {
        if self.ball.position.x < 3 {
            Pong {
                ball: self.ball.recentered(self.width, self.height, sign),
                right_paddle: Paddle { score: (self.right_paddle.score + 1) as u16, ..self.right_paddle },
                ..*self
            }
        } else if self.ball.position.x > self.width - 4 {
            Pong {
                ball: self.ball.recentered(self.width, self.height, sign),
                left_paddle: Paddle { score: (self.left_paddle.score + 1) as u16, ..self.left_paddle },
                ..*self
            }
        } else {
            *self
        }
    }

    /// What the goal check draws: on a point, the ball erased and the new
    /// score line.
    pub open spec fn goal_draws(&self, sign: i16) -> Seq<Draw> {
        if self.ball.position.x < 3 || self.ball.position.x > self.width - 4 {
            seq![cell(self.ball.position.x as int, self.ball.position.y as int, Shade::Blank)]
                + self.scored(sign).scores()
        } else {
            Seq::empty()
        }
    }

    /// Checks both goal lines and, on a point, resets the ball with `sign` as
    /// the factor of its vertical direction and counts the point.
    pub fn handle_winner_with(&mut self, sign: i16) -> (r: Vec<Draw>)
        requires
            old(self).wf(),
            is_sign(sign),
            old(self).left_paddle.score < u16::MAX,
            old(self).right_paddle.score < u16::MAX,
        ensures
            *final(self) == old(self).scored(sign),
            final(self).wf(),
            final(self).width >= MIN_WIDTH ==> final(self).in_play(),
            r@ == old(self).goal_draws(sign),
    {
        let mut r: Vec<Draw> = Vec::new();
        if self.ball.position.x < 3 {
            r = self.ball.reset_with(self.width, self.height, sign);
            self.right_paddle.score = self.right_paddle.score + 1;
            let mut scores = self.render_score();
            r.append(&mut scores);
        } else if self.ball.position.x > self.width - 4 {
            r = self.ball.reset_with(self.width, self.height, sign);
            self.left_paddle.score = self.left_paddle.score + 1;
            let mut scores = self.render_score();
            r.append(&mut scores);
        }
        r
    }

    /// The goal check, with a random vertical direction after a reset.
    pub fn handle_winner(&mut self) -> (r: Vec<Draw>)
        requires
            old(self).wf(),
            old(self).left_paddle.score < u16::MAX,
            old(self).right_paddle.score < u16::MAX,
        ensures
            exists|sign: i16|
                is_sign(sign) && *final(self) == old(self).scored(sign) && r@ == old(self).goal_draws(sign),
            final(self).wf(),
            final(self).width >= MIN_WIDTH ==> final(self).in_play(),
    {
        let sign = Velocity::get();
        self.handle_winner_with(sign)
    }

    fn tracking_row(&self) -> (r: u16)
        requires
            self.wf(),
        ensures
            r == self.target_row(),
    {
        if self.ball.position.y < 1 {
            1
        } else if self.ball.position.y > self.height - 2 {
            self.height - 2
        } else {
            self.ball.position.y
        }
    }

    /// Whether the computer's paddle follows the ball: on a surface wider
    /// than tall only once the ball is in the rightmost fifth of the width.
    pub open spec fn right_tracks(&self) -> bool {
        self.width > self.height ==> self.ball.position.x > self.width - self.width / 5
    }

    /// Whether a computer-driven left paddle would follow the ball: on a
    /// surface wider than tall only while the ball is in the leftmost fifth.
    pub open spec fn left_tracks(&self) -> bool {
        self.width > self.height ==> self.ball.position.x < self.width / 5
    }

    pub open spec fn auto_moved_right(&self) -> Pong {
        if self.right_tracks() {
            Pong { right_paddle: self.right_paddle.stepped_towards(self.target_row()), ..*self }
        } else {
            *self
        }
    }

    pub open spec fn auto_right_draws(&self) -> Seq<Draw> {
        if self.right_tracks() {
            self.right_paddle.draws_towards(self.target_row())
        } else {
            Seq::empty()
        }
    }

    pub open spec fn auto_moved_left(&self) -> Pong {
        if self.left_tracks() {
            Pong { left_paddle: self.left_paddle.stepped_towards(self.target_row()), ..*self }
        } else {
            *self
        }
    }

    pub open spec fn auto_left_draws(&self) -> Seq<Draw> {
        if self.left_tracks() {
            self.left_paddle.draws_towards(self.target_row())
        } else {
            Seq::empty()
        }
    }

    /// One step of the computer's paddle towards the ball's row, when it
    /// tracks the ball.
    pub fn try_auto_move_right_paddle(&mut self) -> (r: Vec<Draw>)
        requires
            old(self).wf(),
        ensures
            *final(self) == old(self).auto_moved_right(),
            final(self).wf(),
            r@ == old(self).auto_right_draws(),
    {
        if self.width > self.height {
            if self.ball.position.x > self.width - self.width / 5 {
                self.right_paddle.try_move_auto(self.tracking_row())
            } else {
                Vec::new()
            }
        } else {
            self.right_paddle.try_move_auto(self.tracking_row())
        }
    }

    /// The same policy for the left paddle, for a game where the computer
    /// plays that side too.
    pub fn try_auto_move_left_paddle(&mut self) -> (r: Vec<Draw>)
        requires
            old(self).wf(),
        ensures
            *final(self) == old(self).auto_moved_left(),
            final(self).wf(),
            r@ == old(self).auto_left_draws(),
    {
        if self.width > self.height {
            if self.ball.position.x < self.width / 5 {
                self.left_paddle.try_move_auto(self.tracking_row())
            } else {
                Vec::new()
            }
        } else {
            self.left_paddle.try_move_auto(self.tracking_row())
        }
    }

    /// The paddle to repaint because the ball is right behind it, on a row
    /// of its span.
    pub open spec fn pass_draws(&self) -> Seq<Draw> {
        if self.ball.position.x + 2 == self.left_paddle.position.x {
            if self.ball.in_span(self.left_paddle) { self.left_paddle.cells() } else { Seq::empty() }
        } else if self.ball.position.x == self.right_paddle.position.x + 2 {
            if self.ball.in_span(self.right_paddle) { self.right_paddle.cells() } else { Seq::empty() }
        } else {
            Seq::empty()
        }
    }

    /// Repaints a paddle that the ball is slipping behind.
    pub fn will_ball_through_paddles(&self) -> (r: Vec<Draw>)
        requires
            self.wf(),
        ensures
            r@ == self.pass_draws(),
    {
        let x = self.ball.position.x;
        if x as u32 + 2 == self.left_paddle.position.x as u32 {
            if self.ball.check_inside_paddle(&self.left_paddle) {
                return self.left_paddle.render();
            }
        } else if x as u32 == self.right_paddle.position.x as u32 + 2 {
            if self.ball.check_inside_paddle(&self.right_paddle) {
                return self.right_paddle.render();
            }
        }
        Vec::new()
    }

    /// The game after a command: the human's paddle moves one row when the
    /// row it moves into is inside the border, and is left where it is
    /// otherwise; a resize rescales the game; the other commands change
    /// nothing here.
    pub open spec fn commanded(&self, command: Command) -> Pong {
        let p = self.left_paddle;
        match command {
            Command::Up => if p.position.y > 1 {
                Pong { left_paddle: p.at_row(p.position.y - 1), ..*self }
            } else {
                *self
            },
            Command::Down => if p.position.y + p.height < self.height - 1 {
                Pong { left_paddle: p.at_row(p.position.y + 1), ..*self }
            } else {
                *self
            },
            Command::Resize(width, height) => self.resized(width, height),
            _ => *self,
        }
    }

    pub open spec fn command_draws(&self, command: Command) -> Seq<Draw> {
        let p = self.left_paddle;
        match command {
            Command::Up => if p.position.y > 1 { p.up_draws() } else { Seq::empty() },
            Command::Down => if p.position.y + p.height < self.height - 1 { p.down_draws() } else { Seq::empty() },
            Command::Resize(width, height) => self.resize_draws(width, height),
            _ => Seq::empty(),
        }
    }

    /// Applies a command other than `Exit`.
    pub fn handle_command(&mut self, command: Command) -> (r: Vec<Draw>)
        requires
            old(self).wf(),
        ensures
            *final(self) == old(self).commanded(command),
            final(self).wf(),
            r@ == old(self).command_draws(command),
    {
        match command {
            Command::Up => {
                if self.left_paddle.position.y > 1 {
                    self.left_paddle.try_move_up()
                } else {
                    Vec::new()
                }
            },
            Command::Down => {
                if (self.left_paddle.position.y as u32) + (self.left_paddle.height as u32) < self.height as u32 - 1 {
                    self.left_paddle.try_move_down()
                } else {
                    Vec::new()
                }
            },
            Command::Resize(width, height) => self.resize(width, height),
            _ => Vec::new(),
        }
    }

    /// Whether the ball is due to move at time `now`.
    pub open spec fn tick_due(&self, now: u64) -> bool {
        now >= self.next_tick
    }

    /// The game after the ball's turn at time `now`: when due, the ball
    /// ticks and the next tick is due one interval after `now`.
    pub open spec fn after_tick(&self, now: u64) -> Pong {
        if self.tick_due(now) {
            Pong {
                ball: self.ball.ticked(self.height as int, self.left_paddle, self.right_paddle),
                next_tick: (now + self.interval) as u64,
                ..*self
            }
        } else {
            *self
        }
    }

    pub open spec fn tick_draws(&self, now: u64) -> Seq<Draw> {
        if self.tick_due(now) {
            let b = self.after_tick(now).ball;
            seq![
                cell(self.ball.position.x as int, self.ball.position.y as int, Shade::Blank),
                cell(b.position.x as int, b.position.y as int, Shade::Ball),
            ]
        } else {
            Seq::empty()
        }
    }

    /// The closing picture: a cleared surface and both scores in the middle.
    pub open spec fn summary(&self) -> Seq<Draw> {
        seq![
            Draw::ClearScreen,
            Draw::Text {
                x: self.width / 2,
                y: self.height / 2,
                label: Label::FinalScore(self.left_paddle.score, self.right_paddle.score),
            },
        ]
    }

    /// The game after one iteration at time `now` with `command`, with `sign`
    /// as the factor of a reset's vertical direction: the ball's turn, then
    /// the command; unless it is `Exit`, then the computer's paddle and the
    /// goal check.
    pub open spec fn advanced(&self, now: u64, command: Option<Command>, sign: i16) -> Pong {
        let s1 = self.after_tick(now);
        match command {
            Some(Command::Exit) => s1,
            Some(c) => s1.commanded(c).auto_moved_right().scored(sign),
            None => s1.auto_moved_right().scored(sign),
        }
    }

    /// What one iteration draws, in order.
    pub open spec fn advanced_draws(&self, now: u64, command: Option<Command>, sign: i16) -> Seq<Draw> {
        let s1 = self.after_tick(now);
        match command {
            Some(Command::Exit) => self.tick_draws(now) + s1.summary(),
            _ => {
                let s2 = match command {
                    Some(c) => s1.commanded(c),
                    None => s1,
                };
                let s3 = s2.auto_moved_right();
                let s4 = s3.scored(sign);
                self.tick_draws(now) + match command {
                    Some(c) => s1.command_draws(c),
                    None => Seq::empty(),
                } + s2.auto_right_draws() + s3.goal_draws(sign) + s4.pass_draws()
            },
        }
    }

    /// One iteration of the game loop at time `now`, in milliseconds, with
    /// the command read meanwhile and `sign` as the factor of a reset's
    /// vertical direction. The game goes on unless the command is `Exit`.
    pub fn step_with(&mut self, now: u64, command: Option<Command>, sign: i16) -> (r: Frame)
        requires
            old(self).wf(),
            is_sign(sign),
            now <= u64::MAX - TICK_INTERVAL_MS,
            old(self).left_paddle.score < u16::MAX,
            old(self).right_paddle.score < u16::MAX,
        ensures
            *final(self) == old(self).advanced(now, command, sign),
            r.running == (command != Some(Command::Exit)),
            r.draws@ == old(self).advanced_draws(now, command, sign),
            final(self).wf(),
            r.running && final(self).width >= MIN_WIDTH ==> final(self).in_play(),
    {
        let mut draws: Vec<Draw> = Vec::new();
        if now >= self.next_tick {
            draws = self.ball.handle_move(self.height, &self.left_paddle, &self.right_paddle);
            self.next_tick = now + self.interval;
        }
        match command {
            Some(Command::Exit) => {
                draws.push(Draw::ClearScreen);
                draws.push(Draw::Text {
                    x: self.width / 2,
                    y: self.height / 2,
                    label: Label::FinalScore(self.left_paddle.score, self.right_paddle.score),
                });
                return Frame { running: false, draws };
            },
            Some(c) => {
                let mut d = self.handle_command(c);
                draws.append(&mut d);
            },
            None => {},
        }
        let mut d = self.try_auto_move_right_paddle();
        draws.append(&mut d);
        let mut d = self.handle_winner_with(sign);
        draws.append(&mut d);
        let mut d = self.will_ball_through_paddles();
        draws.append(&mut d);
        Frame { running: true, draws }
    }

    /// One iteration of the game loop, with a random vertical direction for
    /// a reset.
    pub fn step(&mut self, now: u64, command: Option<Command>) -> (r: Frame)
        requires
            old(self).wf(),
            now <= u64::MAX - TICK_INTERVAL_MS,
            old(self).left_paddle.score < u16::MAX,
            old(self).right_paddle.score < u16::MAX,
        ensures
            exists|sign: i16|
                is_sign(sign) && *final(self) == old(self).advanced(now, command, sign) && r.draws@
                    == old(self).advanced_draws(now, command, sign),
            r.running == (command != Some(Command::Exit)),
            final(self).wf(),
            r.running && final(self).width >= MIN_WIDTH ==> final(self).in_play(),
    {
        let sign = Velocity::get();
        self.step_with(now, command, sign)
    }
}

/// Rescaling keeps proportions: a coordinate inside the old extent lands on
/// the new extent at the same fraction, rounded up to the next whole cell.
/// In particular the middle of the old extent lands on the middle of the
/// new one, up to half a cell.
pub proof fn lemma_rescale_proportional(pre_length: int, new_length: int, pre_pos: int)
    requires
        0 < pre_length <= u16::MAX,
        0 <= new_length <= u16::MAX,
        0 <= pre_pos <= pre_length,
    ensures
        rescaled(pre_length, new_length, pre_pos) * pre_length >= pre_pos * new_length,
        rescaled(pre_length, new_length, pre_pos) * pre_length < pre_pos * new_length + pre_length,
        2 * pre_pos == pre_length ==> {
            let r = rescaled(pre_length, new_length, pre_pos);
            2 * r == new_length || 2 * r == new_length + 1
        },
{
    let num = pre_pos * new_length + pre_length - 1;
    let c = num / pre_length;
    lemma_fundamental_div_mod(num, pre_length);
    assert(0 <= num % pre_length < pre_length) by {
        lemma_mod_bound(num, pre_length);
    }
    assert(pre_pos * new_length <= pre_length * new_length) by (nonlinear_arith)
        requires pre_pos <= pre_length, 0 <= new_length;
    assert(c <= new_length) by (nonlinear_arith)
        requires
            c * pre_length + num % pre_length == num,
            0 <= num % pre_length,
            num == pre_pos * new_length + pre_length - 1,
            pre_pos * new_length <= pre_length * new_length,
            0 < pre_length,
    ;
    assert(rescaled(pre_length, new_length, pre_pos) == c);
    if 2 * pre_pos == pre_length {
        assert(2 * c == new_length || 2 * c == new_length + 1) by (nonlinear_arith)
            requires
                c * pre_length >= pre_pos * new_length,
                c * pre_length < pre_pos * new_length + pre_length,
                2 * pre_pos == pre_length,
                0 < pre_length,
        ;
    }
}

/// The two goal lines never hold together: on a surface at least
/// `MIN_WIDTH` wide no column is both left of 3 and right of `width - 4`.
pub proof fn lemma_goals_exclusive(width: int, column: int)
    requires
        width >= MIN_WIDTH,
    ensures
        !(column < 3 && column > width - 4),
{
}

/// A goal check gives at most one point, and only to one side: a ball left
/// of column 3 scores for the right player alone, one right of column
/// `width - 4` for the left player alone, any other leaves the scores.
pub proof fn lemma_one_point_per_check(g: Pong, sign: i16)
    requires
        g.wf(),
        g.left_paddle.score < u16::MAX,
        g.right_paddle.score < u16::MAX,
    ensures
        !(g.scored(sign).left_paddle.score == g.left_paddle.score + 1
            && g.scored(sign).right_paddle.score == g.right_paddle.score + 1),
        g.scored(sign).left_paddle.score == g.left_paddle.score
            || g.scored(sign).left_paddle.score == g.left_paddle.score + 1,
        g.scored(sign).right_paddle.score == g.right_paddle.score
            || g.scored(sign).right_paddle.score == g.right_paddle.score + 1,
{
}

/// A ball left of column 3 gives the right player one point and is reset:
/// back in the middle of the surface, heading the other way horizontally.
pub proof fn lemma_left_goal_resets(g: Pong, sign: i16)
    requires
        g.wf(),
        g.ball.position.x < 3,
        g.right_paddle.score < u16::MAX,
    ensures
        g.scored(sign).right_paddle.score == g.right_paddle.score + 1,
        g.scored(sign).left_paddle.score == g.left_paddle.score,
        g.scored(sign).ball.position == (Position { x: g.width / 2, y: g.height / 2 }),
        g.scored(sign).ball.velocity.x == -g.ball.velocity.x,
{
}

/// Whether `(x, y)` is a cell of the border of a `width` by `height`
/// surface: on the surface, in its first or last row or column.
pub open spec fn on_border(x: int, y: int, width: int, height: int) -> bool {
    &&& 0 <= x < width
    &&& 0 <= y < height
    &&& (x == 0 || y == 0 || x == width - 1 || y == height - 1)
}

/// Whether `d` paints a border cell in one of the first `n` columns.
pub open spec fn border_cell_before(d: Draw, n: int, width: int, height: int) -> bool {
    match d {
        Draw::Cell { x, y, shade } => shade == Shade::Border && x < n && on_border(x as int, y as int, width, height),
        _ => false,
    }
}

proof fn lemma_border_prefix(n: nat, width: int, height: int)
    requires
        1 <= width <= u16::MAX,
        1 <= height <= u16::MAX,
        n <= width,
    ensures
        forall|i: int| 0 <= i < border_prefix(n, width, height).len()
            ==> border_cell_before(#[trigger] border_prefix(n, width, height)[i], n as int, width, height),
        border_prefix(n, width, height).no_duplicates(),
        forall|x: int, y: int| on_border(x, y, width, height) && x < n
            ==> border_prefix(n, width, height).contains(#[trigger] cell(x, y, Shade::Border)),
    decreases n,
{
    if n > 0 {
        let m = (n - 1) as nat;
        lemma_border_prefix(m, width, height);
        let prev = border_prefix(m, width, height);
        let col = border_column(m as int, width, height);
        let all = border_prefix(n, width, height);
        assert(all == prev + col);
        assert forall|j: int| 0 <= j < col.len() implies
            (match #[trigger] col[j] {
                Draw::Cell { x, y, shade } => shade == Shade::Border && x == m && on_border(x as int, y as int, width, height)
                    && (y as int) == (if m == 0 || m == width - 1 { j } else if height == 1 { 0 } else if j == 0 { 0 } else { height - 1 }),
                _ => false,
            }) by {
        }
        assert forall|i: int| 0 <= i < all.len() implies border_cell_before(#[trigger] all[i], n as int, width, height) by {
            if i < prev.len() {
                assert(all[i] == prev[i]);
            } else {
                assert(all[i] == col[i - prev.len()]);
            }
        }
        assert forall|i: int, j: int| 0 <= i < all.len() && 0 <= j < all.len() && i != j implies all[i] != all[j] by {
            if i < prev.len() && j < prev.len() {
                assert(all[i] == prev[i] && all[j] == prev[j]);
            } else if i < prev.len() {
                assert(all[i] == prev[i] && border_cell_before(prev[i], m as int, width, height));
                assert(all[j] == col[j - prev.len()]);
            } else if j < prev.len() {
                assert(all[j] == prev[j] && border_cell_before(prev[j], m as int, width, height));
                assert(all[i] == col[i - prev.len()]);
            } else {
                assert(all[i] == col[i - prev.len()]);
                assert(all[j] == col[j - prev.len()]);
            }
        }
        assert forall|x: int, y: int| on_border(x, y, width, height) && x < n
            implies all.contains(#[trigger] cell(x, y, Shade::Border)) by {
            if x < m {
                let k = choose|k: int| 0 <= k < prev.len() && prev[k] == cell(x, y, Shade::Border);
                assert(all[k] == prev[k]);
            } else {
                let j = if m == 0 || m == width - 1 { y } else if height == 1 { 0 } else if y == 0 { 0 } else { 1 };
                assert(col[j] == cell(x, y, Shade::Border));
                assert(all[prev.len() + j] == col[j]);
            }
        }
    }
}

/// The border is painted as exactly the border cells, each once: every
/// drawing operation paints a cell of the first or last row or column,
/// no cell is painted twice, and every such cell is painted.
pub proof fn lemma_border_exact(width: u16, height: u16)
    requires
        width >= 1,
        height >= 1,
    ensures
        forall|i: int| 0 <= i < border_prefix(width as nat, width as int, height as int).len()
            ==> border_cell_before(#[trigger] border_prefix(width as nat, width as int, height as int)[i],
                width as int, width as int, height as int),
        border_prefix(width as nat, width as int, height as int).no_duplicates(),
        forall|x: int, y: int| on_border(x, y, width as int, height as int)
            ==> border_prefix(width as nat, width as int, height as int).contains(#[trigger] cell(x, y, Shade::Border)),
{
    lemma_border_prefix(width as nat, width as int, height as int);
}

} // verus!
