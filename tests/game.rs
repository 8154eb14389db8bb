use pong::ball::Ball;
use pong::command::{Command, InputEvent, Key};
use pong::draw::{centered_column, Draw, Label, Shade};
use pong::paddle::Paddle;
use pong::pong::{rescale, Pong, MIN_HEIGHT, MIN_RESIZE_HEIGHT, MIN_WIDTH, PADDING};
use pong::position::Position;
use pong::velocity::{direction_of, Velocity};

fn standard_paddles(width: u16, height: u16) -> (Paddle, Paddle) {
    let top = height / 2 - height / 8;
    (
        Paddle::new(Position::new(PADDING, top), height / 4, Shade::LeftPaddle),
        Paddle::new(Position::new(width - PADDING - 1, top), height / 4, Shade::RightPaddle),
    )
}

#[test]
fn centered_ball_moves_one_cell_diagonally() {
    let mut game = Pong::new(80, 24);
    assert_eq!(game.ball.position, Position::new(40, 12));
    game.ball.velocity = Velocity { x: 1, y: 1 };
    let frame = game.step_with(0, None, 1);
    assert!(frame.running);
    assert_eq!(game.ball.position, Position::new(41, 13));
    assert_eq!(game.ball.velocity, Velocity { x: 1, y: 1 });
    assert_eq!(game.next_tick, 5);
    assert_eq!(frame.draws[0], Draw::Cell { x: 40, y: 12, shade: Shade::Blank });
    assert_eq!(frame.draws[1], Draw::Cell { x: 41, y: 13, shade: Shade::Ball });
}

#[test]
fn ball_waits_for_its_interval() {
    let mut game = Pong::new(80, 24);
    game.ball.velocity = Velocity { x: 1, y: 1 };
    game.step_with(10, None, 1);
    assert_eq!(game.ball.position, Position::new(41, 13));
    game.step_with(14, None, 1);
    assert_eq!(game.ball.position, Position::new(41, 13));
    game.step_with(15, None, 1);
    assert_eq!(game.ball.position, Position::new(42, 14));
}

#[test]
fn ball_bounces_off_top_wall() {
    let (left, right) = standard_paddles(80, 24);
    let mut ball = Ball::new(Position::new(40, 2), Velocity { x: 1, y: -1 });
    ball.handle_move(24, &left, &right);
    assert_eq!(ball.velocity, Velocity { x: 1, y: 1 });
    assert_eq!(ball.position, Position::new(41, 3));
}

#[test]
fn ball_bounces_off_bottom_wall() {
    let (left, right) = standard_paddles(80, 24);
    let mut ball = Ball::new(Position::new(40, 21), Velocity { x: -1, y: 1 });
    ball.handle_move(24, &left, &right);
    assert_eq!(ball.velocity, Velocity { x: -1, y: -1 });
    assert_eq!(ball.position, Position::new(39, 20));
}

#[test]
fn ball_bounces_off_left_paddle() {
    let left = Paddle::new(Position::new(PADDING, 8), 6, Shade::LeftPaddle);
    let (_, right) = standard_paddles(80, 24);
    let mut ball = Ball::new(Position::new(PADDING + 2, 10), Velocity { x: -1, y: 1 });
    ball.handle_move(24, &left, &right);
    assert_eq!(ball.velocity.x, 1);
    assert_eq!(ball.position, Position::new(PADDING + 3, 11));
}

#[test]
fn ball_bounces_off_right_paddle() {
    let (left, _) = standard_paddles(80, 24);
    let right = Paddle::new(Position::new(74, 8), 6, Shade::RightPaddle);
    let mut ball = Ball::new(Position::new(72, 13), Velocity { x: 1, y: -1 });
    ball.handle_move(24, &left, &right);
    assert_eq!(ball.velocity, Velocity { x: -1, y: -1 });
    assert_eq!(ball.position, Position::new(71, 12));
}

#[test]
fn ball_passes_a_missing_paddle() {
    let left = Paddle::new(Position::new(PADDING, 8), 6, Shade::LeftPaddle);
    let (_, right) = standard_paddles(80, 24);
    let mut ball = Ball::new(Position::new(PADDING + 2, 14), Velocity { x: -1, y: 1 });
    assert!(!ball.check_inside_paddle(&left));
    ball.handle_move(24, &left, &right);
    assert_eq!(ball.velocity, Velocity { x: -1, y: 1 });
    assert_eq!(ball.position, Position::new(PADDING + 1, 15));
}

#[test]
fn left_goal_scores_for_the_computer() {
    let mut game = Pong::new(80, 24);
    game.ball.position = Position::new(2, 10);
    game.ball.velocity = Velocity { x: -1, y: 1 };
    let draws = game.handle_winner_with(-1);
    assert_eq!(game.right_paddle.score, 1);
    assert_eq!(game.left_paddle.score, 0);
    assert_eq!(game.ball.position, Position::new(40, 12));
    assert_eq!(game.ball.velocity, Velocity { x: 1, y: -1 });
    assert_eq!(draws[0], Draw::Cell { x: 2, y: 10, shade: Shade::Blank });
    assert_eq!(draws[2], Draw::Text { x: 60, y: 0, label: Label::ComputerScore(1) });
}

#[test]
fn right_goal_scores_for_the_human() {
    let mut game = Pong::new(80, 24);
    game.ball.position = Position::new(77, 10);
    let draws = game.handle_winner();
    assert_eq!(game.left_paddle.score, 1);
    assert_eq!(game.right_paddle.score, 0);
    assert_eq!(game.ball.position.x, 40);
    assert_eq!(draws[1], Draw::Text { x: 20, y: 0, label: Label::YourScore(1) });
}

#[test]
fn goal_lines_are_exclusive_on_narrowest_surface() {
    for column in 0..8u16 {
        let mut game = Pong::new(MIN_WIDTH, MIN_HEIGHT);
        game.ball.position = Position::new(column, 2);
        game.handle_winner_with(1);
        let scored = game.left_paddle.score + game.right_paddle.score;
        if column < 3 || column > 4 {
            assert_eq!(scored, 1);
        } else {
            assert_eq!(scored, 0);
        }
    }
}

#[test]
fn resize_keeps_proportions() {
    let mut game = Pong::new(80, 24);
    game.left_paddle.position.y = 10;
    assert_eq!(game.left_paddle.height, 6);
    game.ball.position = Position::new(40, 12);
    let draws = game.resize(120, 40);
    assert_eq!(game.left_paddle.position, Position::new(PADDING, 17));
    assert_eq!(game.left_paddle.height, 10);
    assert_eq!(game.right_paddle.height, 10);
    assert_eq!(game.right_paddle.position.x, 120 - PADDING - 1);
    assert_eq!(game.ball.position, Position::new(60, 20));
    assert_eq!((game.width, game.height), (120, 40));
    assert_eq!(draws[0], Draw::ClearScreen);
}

#[test]
fn resize_through_a_command() {
    let mut game = Pong::new(80, 24);
    game.left_paddle.position.y = 10;
    let frame = game.step_with(0, Some(Command::Resize(120, 40)), 1);
    assert!(frame.running);
    assert_eq!(game.left_paddle.position.y, 17);
    assert_eq!(game.left_paddle.height, 10);
}

#[test]
fn resize_to_unplayable_size_is_ignored() {
    let mut game = Pong::new(80, 24);
    let before = (game.width, game.height, game.left_paddle, game.right_paddle, game.ball);
    let draws = game.resize(PADDING, 40);
    assert!(draws.is_empty());
    assert_eq!((game.width, game.height, game.left_paddle, game.right_paddle, game.ball), before);
    let draws = game.resize(80, MIN_RESIZE_HEIGHT - 1);
    assert!(draws.is_empty());
    assert_eq!((game.width, game.height, game.left_paddle, game.right_paddle, game.ball), before);
}

#[test]
fn resize_to_narrow_surface_rescales() {
    let mut game = Pong::new(80, 24);
    game.ball.position = Position::new(40, 12);
    game.left_paddle.position.y = 12;
    let draws = game.resize(7, 24);
    assert_eq!((game.width, game.height), (7, 24));
    assert_eq!(game.ball.position, Position::new(4, 12));
    assert_eq!(game.left_paddle.position, Position::new(PADDING, 12));
    assert_eq!(game.right_paddle.position.x, 7 - PADDING - 1);
    assert_eq!(draws[0], Draw::ClearScreen);
    let mut other = Pong::new(80, 24);
    other.ball.position = Position::new(40, 12);
    other.resize(7, 40);
    assert_eq!(other.ball.position, Position::new(4, 20));
    assert_eq!(other.left_paddle.height, 10);
}

#[test]
fn resize_keeps_paddles_inside_border() {
    let mut game = Pong::new(80, 24);
    game.right_paddle.position.y = 17;
    game.resize(80, 8);
    assert_eq!(game.right_paddle.height, 2);
    assert_eq!(game.right_paddle.position.y, 5);
}

#[test]
fn rescale_maps_middle_to_middle() {
    assert_eq!(rescale(24, 40, 12), 20);
    assert_eq!(rescale(80, 120, 40), 60);
    assert_eq!(rescale(24, 40, 10), 17);
    assert_eq!(rescale(24, 41, 12), 21);
    assert_eq!(rescale(24, 40, 0), 0);
    assert_eq!(rescale(1, 65535, 2), 65535);
}

#[test]
fn paddle_moves_shift_span() {
    let mut p = Paddle::new(Position::new(5, 8), 6, Shade::LeftPaddle);
    let draws = p.try_move_up();
    assert_eq!(p.position.y, 7);
    assert_eq!(p.height, 6);
    assert_eq!(draws, vec![
        Draw::Cell { x: 5, y: 13, shade: Shade::Blank },
        Draw::Cell { x: 5, y: 7, shade: Shade::LeftPaddle },
    ]);
    let draws = p.try_move_down();
    assert_eq!(p.position.y, 8);
    assert_eq!(p.height, 6);
    assert_eq!(draws, vec![
        Draw::Cell { x: 5, y: 7, shade: Shade::Blank },
        Draw::Cell { x: 5, y: 13, shade: Shade::LeftPaddle },
    ]);
    assert_eq!(p.render().len(), 6);
}

#[test]
fn paddle_tracks_ball_one_row_at_a_time() {
    let mut p = Paddle::new(Position::new(74, 8), 6, Shade::RightPaddle);
    assert!(p.try_move_auto(10).is_empty());
    assert_eq!(p.position.y, 8);
    p.try_move_auto(20);
    assert_eq!(p.position.y, 9);
    p.try_move_auto(2);
    assert_eq!(p.position.y, 8);
    p.try_move_auto(14);
    assert_eq!(p.position.y, 9);
}

#[test]
fn manual_moves_stop_at_border() {
    let mut game = Pong::new(80, 24);
    game.left_paddle.position.y = 1;
    let frame = game.step_with(1, Some(Command::Up), 1);
    assert_eq!(game.left_paddle.position.y, 1);
    assert!(frame.running);
    game.left_paddle.position.y = 2;
    game.step_with(1, Some(Command::Up), 1);
    assert_eq!(game.left_paddle.position.y, 1);
    game.left_paddle.position.y = 24 - 6 - 1;
    game.step_with(1, Some(Command::Down), 1);
    assert_eq!(game.left_paddle.position.y, 24 - 6 - 1);
    game.left_paddle.position.y = 24 - 6 - 2;
    game.step_with(1, Some(Command::Down), 1);
    assert_eq!(game.left_paddle.position.y, 24 - 6 - 1);
}

#[test]
fn computer_paddle_tracks_only_near_its_side() {
    let mut game = Pong::new(80, 24);
    game.ball.position = Position::new(60, 20);
    game.next_tick = 100;
    game.step_with(0, None, 1);
    assert_eq!(game.right_paddle.position.y, 9);
    game.ball.position = Position::new(70, 20);
    game.step_with(0, None, 1);
    assert_eq!(game.right_paddle.position.y, 10);
}

#[test]
fn exit_ends_with_summary() {
    let mut game = Pong::new(80, 24);
    game.next_tick = 100;
    let frame = game.step_with(0, Some(Command::Exit), 1);
    assert!(!frame.running);
    assert_eq!(frame.draws, vec![
        Draw::ClearScreen,
        Draw::Text { x: 40, y: 12, label: Label::FinalScore(0, 0) },
    ]);
}

#[test]
fn ball_stays_inside_during_play() {
    let mut game = Pong::new(80, 24);
    let mut now: u64 = 0;
    for _ in 0..5000 {
        let frame = game.step(now, None);
        assert!(frame.running);
        let b = game.ball;
        assert!(b.velocity.x == 1 || b.velocity.x == -1);
        assert!(b.velocity.y == 1 || b.velocity.y == -1);
        assert!(b.position.y >= 2 && b.position.y <= 24 - 3);
        assert!(b.position.x >= 1 && b.position.x <= 80 - 2);
        now += 5;
    }
}

#[test]
fn keys_decode_to_commands() {
    assert_eq!(Command::new(InputEvent::Key(Key::Up)), Some(Command::Up));
    assert_eq!(Command::new(InputEvent::Key(Key::Char('w'))), Some(Command::Up));
    assert_eq!(Command::new(InputEvent::Key(Key::Down)), Some(Command::Down));
    assert_eq!(Command::new(InputEvent::Key(Key::Char('s'))), Some(Command::Down));
    assert_eq!(Command::new(InputEvent::Key(Key::Char('b'))), Some(Command::Back));
    assert_eq!(Command::new(InputEvent::Key(Key::Char('n'))), Some(Command::Next));
    assert_eq!(Command::new(InputEvent::Key(Key::Enter)), Some(Command::Next));
    assert_eq!(Command::new(InputEvent::Key(Key::Esc)), Some(Command::Exit));
    assert_eq!(Command::new(InputEvent::Key(Key::Char('x'))), None);
    assert_eq!(Command::new(InputEvent::Key(Key::Other)), None);
    assert_eq!(Command::new(InputEvent::Resize(100, 30)), Some(Command::Resize(100, 30)));
    assert_eq!(Command::new(InputEvent::Other), None);
}

#[test]
fn random_directions_are_unit_signs() {
    for _ in 0..200 {
        let s = Velocity::get();
        assert!(s == 1 || s == -1);
        let v = Velocity::new();
        assert!(v.x == 1 || v.x == -1);
        assert!(v.y == 1 || v.y == -1);
    }
    assert_eq!(direction_of(0), -1);
    assert_eq!(direction_of(1), 1);
}

#[test]
fn border_covers_the_edge() {
    let game = Pong::new(8, 8);
    let cells = game.render_border();
    assert_eq!(cells.len(), 8 + 8 + 6 * 2);
    assert_eq!(cells[0], Draw::Cell { x: 0, y: 0, shade: Shade::Border });
    assert_eq!(cells[8], Draw::Cell { x: 1, y: 0, shade: Shade::Border });
    assert_eq!(cells[9], Draw::Cell { x: 1, y: 7, shade: Shade::Border });
    let opening = game.render_all();
    assert_eq!(opening.len(), 1 + 28 + 2 + 2 + 2);
}

#[test]
fn pass_behind_paddle_repaints_it() {
    let mut game = Pong::new(80, 24);
    game.ball.position = Position::new(PADDING - 2, 10);
    assert_eq!(game.will_ball_through_paddles().len(), 6);
    game.ball.position = Position::new(PADDING - 2, 20);
    assert!(game.will_ball_through_paddles().is_empty());
    game.ball.position = Position::new(76, 12);
    assert_eq!(game.will_ball_through_paddles().len(), 6);
}

#[test]
fn labels_center_on_anchor() {
    assert_eq!(centered_column(20, 13), 14);
    assert_eq!(centered_column(3, 13), 0);
}

#[test]
fn resize_to_low_surface_rescales_each_axis() {
    let mut low = Pong::new(80, 24);
    let mut tall = Pong::new(80, 24);
    low.ball.position = Position::new(40, 12);
    tall.ball.position = Position::new(40, 12);
    let draws = low.resize(120, 7);
    tall.resize(120, 40);
    assert_eq!((low.width, low.height), (120, 7));
    assert_eq!(low.ball.position, Position::new(60, 4));
    assert_eq!(low.ball.position.x, tall.ball.position.x);
    assert_eq!(low.left_paddle.height, 1);
    assert_eq!(low.right_paddle.position.x, tall.right_paddle.position.x);
    assert_eq!(draws[0], Draw::ClearScreen);
}

#[test]
fn resize_to_lowest_playable_surface() {
    let mut game = Pong::new(80, 24);
    game.resize(80, MIN_HEIGHT);
    assert_eq!(game.height, MIN_HEIGHT);
    assert_eq!(game.left_paddle.height, 1);
    let p = game.left_paddle;
    assert!(p.position.y >= 1 && p.position.y + p.height <= MIN_HEIGHT - 1);
    game.resize(80, MIN_RESIZE_HEIGHT);
    assert_eq!(game.height, MIN_RESIZE_HEIGHT);
    assert_eq!(game.left_paddle.height, 1);
    let p = game.right_paddle;
    assert!(p.position.y >= 1 && p.position.y + p.height <= MIN_RESIZE_HEIGHT - 1);
}

#[test]
fn border_of_one_row_paints_each_cell_once() {
    let mut game = Pong::new(8, 8);
    game.height = 1;
    let cells = game.render_border();
    assert_eq!(cells.len(), 8);
    for x in 0..8u16 {
        assert_eq!(cells[x as usize], Draw::Cell { x, y: 0, shade: Shade::Border });
    }
}

#[test]
fn play_on_lowest_surface() {
    let mut game = Pong::new(MIN_WIDTH, MIN_HEIGHT);
    let mut now: u64 = 0;
    for _ in 0..500 {
        let frame = game.step(now, None);
        assert!(frame.running);
        for p in [game.left_paddle, game.right_paddle] {
            assert!(p.position.y >= 1 && p.position.y + p.height <= MIN_HEIGHT - 1);
        }
        assert!(game.ball.position.x >= 3 && game.ball.position.x <= MIN_WIDTH - 4);
        now += 5;
    }
}

#[test]
fn paddle_tracking_stays_inside_border() {
    let mut game = Pong::new(20, 24);
    game.right_paddle.position.y = 2;
    game.ball.position = Position::new(19, 0);
    let draws = game.try_auto_move_right_paddle();
    assert_eq!(game.right_paddle.position.y, 1);
    assert_eq!(draws.len(), 2);
    let draws = game.try_auto_move_right_paddle();
    assert_eq!(game.right_paddle.position.y, 1);
    assert!(draws.is_empty());
}

#[test]
fn border_of_two_rows_paints_each_cell_once() {
    let mut game = Pong::new(8, 8);
    game.height = 2;
    let cells = game.render_border();
    assert_eq!(cells.len(), 16);
}
