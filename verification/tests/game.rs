use pong::config::{BALL_MAX_SPEED, BALL_RADIUS, BALL_SPEED, WINDOW_HALF_HEIGHT};
use pong::data::{Ball, Entity, Sprite};
use pong::game::{
    bounce, move_ball, move_paddle, serve, update_ball_state, BallMoveState, BallUpdateState,
};
use pong::geometry::{Point, Rect, MAX_COORD, MIN_COORD};

fn entity(sheet: &u8, x: i32, y: i32) -> Entity<'_, u8> {
    Entity {
        position: Point { x, y },
        size: (52, 150),
        sprite: Sprite { texture: sheet, rect: Rect::new(0, 0, 52, 150) },
    }
}

fn moved_paddle(y: i32, movement: i32) -> Point {
    let sheet = 0u8;
    let mut paddle = entity(&sheet, 390, y);
    move_paddle(&mut paddle, movement);
    assert_eq!(paddle.size, (52, 150));
    assert_eq!(paddle.sprite.rect, Rect::new(0, 0, 52, 150));
    paddle.position
}

#[test]
fn constants_of_the_rules() {
    assert_eq!(WINDOW_HALF_HEIGHT, 300);
    assert_eq!(BALL_RADIUS, 11);
    assert_eq!(BALL_SPEED, 2);
    assert_eq!(BALL_MAX_SPEED, 15);
}

#[test]
fn paddle_moves_by_its_velocity_inside_the_field() {
    assert_eq!(moved_paddle(0, 4), Point { x: 390, y: 4 });
    assert_eq!(moved_paddle(0, -4), Point { x: 390, y: -4 });
    assert_eq!(moved_paddle(100, 0), Point { x: 390, y: 100 });
    assert_eq!(moved_paddle(-200, 445), Point { x: 390, y: 245 });
}

#[test]
fn paddle_reaches_the_wall_but_does_not_pass_it() {
    assert_eq!(moved_paddle(241, 4), Point { x: 390, y: 245 });
    assert_eq!(moved_paddle(242, 4), Point { x: 390, y: 242 });
    assert_eq!(moved_paddle(245, 4), Point { x: 390, y: 245 });
    assert_eq!(moved_paddle(-241, -4), Point { x: 390, y: -245 });
    assert_eq!(moved_paddle(-242, -4), Point { x: 390, y: -242 });
    assert_eq!(moved_paddle(-245, -4), Point { x: 390, y: -245 });
}

#[test]
fn paddle_outside_the_field_can_only_move_back_in() {
    assert_eq!(moved_paddle(400, 4), Point { x: 390, y: 400 });
    assert_eq!(moved_paddle(400, -4), Point { x: 390, y: 400 });
    assert_eq!(moved_paddle(400, -155), Point { x: 390, y: 245 });
}

#[test]
fn paddle_move_past_the_integer_range_is_rejected() {
    assert_eq!(moved_paddle(100, i32::MAX), Point { x: 390, y: 100 });
    assert_eq!(moved_paddle(-100, i32::MIN), Point { x: 390, y: -100 });
    assert_eq!(moved_paddle(i32::MAX, i32::MAX), Point { x: 390, y: i32::MAX });
    assert_eq!(moved_paddle(i32::MIN, -1), Point { x: 390, y: i32::MIN });
}

fn moved_ball(position: Point, movement: Point) -> (BallMoveState, Point, Point) {
    let sheet = 0u8;
    let mut ball = entity(&sheet, position.x, position.y);
    let mut movement = movement;
    let state = move_ball(&mut ball, &mut movement);
    assert_eq!(ball.size, (52, 150));
    (state, ball.position, movement)
}

#[test]
fn ball_advances_by_its_velocity() {
    assert_eq!(
        moved_ball(Point::new(0, 0), Point::new(2, 2)),
        (BallMoveState::Moving, Point { x: 2, y: 2 }, Point { x: 2, y: 2 })
    );
    assert_eq!(
        moved_ball(Point::new(10, -20), Point::new(-15, -2)),
        (BallMoveState::Moving, Point { x: -5, y: -22 }, Point { x: -15, y: -2 })
    );
}

#[test]
fn ball_may_touch_a_wall_without_bouncing() {
    assert_eq!(
        moved_ball(Point::new(0, 287), Point::new(2, 2)),
        (BallMoveState::Moving, Point { x: 2, y: 289 }, Point { x: 2, y: 2 })
    );
    assert_eq!(
        moved_ball(Point::new(0, -287), Point::new(2, -2)),
        (BallMoveState::Moving, Point { x: 2, y: -289 }, Point { x: 2, y: -2 })
    );
}

#[test]
fn ball_bounces_off_the_bottom_wall() {
    assert_eq!(
        moved_ball(Point::new(0, 288), Point::new(2, 2)),
        (BallMoveState::WallCollision, Point { x: 2, y: 286 }, Point { x: 2, y: -2 })
    );
}

#[test]
fn ball_bounces_off_the_top_wall() {
    assert_eq!(
        moved_ball(Point::new(5, -289), Point::new(-3, -2)),
        (BallMoveState::WallCollision, Point { x: 2, y: -287 }, Point { x: -3, y: 2 })
    );
}

#[test]
fn ball_outside_the_field_keeps_bouncing() {
    assert_eq!(
        moved_ball(Point::new(0, 500), Point::new(0, 2)),
        (BallMoveState::WallCollision, Point { x: 0, y: 498 }, Point { x: 0, y: -2 })
    );
    assert_eq!(
        moved_ball(Point::new(0, 500), Point::new(0, -2)),
        (BallMoveState::WallCollision, Point { x: 0, y: 502 }, Point { x: 0, y: 2 })
    );
}

#[test]
fn ball_position_saturates() {
    assert_eq!(
        moved_ball(Point::new(MAX_COORD, 0), Point::new(15, 2)),
        (BallMoveState::Moving, Point { x: MAX_COORD, y: 2 }, Point { x: 15, y: 2 })
    );
    assert_eq!(
        moved_ball(Point { x: i32::MIN, y: 0 }, Point { x: i32::MIN, y: 0 }),
        (BallMoveState::Moving, Point { x: MIN_COORD, y: 0 }, Point { x: i32::MIN, y: 0 })
    );
}

fn judged(ball: (i32, i32), movement: (i32, i32), paddle: (i32, i32)) -> BallUpdateState {
    let sheet = 0u8;
    let ball = entity(&sheet, ball.0, ball.1);
    let paddle = entity(&sheet, paddle.0, paddle.1);
    update_ball_state(&ball, Point { x: movement.0, y: movement.1 }, &paddle)
}

#[test]
fn ball_without_sideways_motion_is_never_judged() {
    assert_eq!(judged((390, 0), (0, 2), (390, 0)), BallUpdateState::Moving);
    assert_eq!(judged((500, 200), (0, -2), (390, 0)), BallUpdateState::Moving);
}

#[test]
fn ball_short_of_the_right_paddle_keeps_moving() {
    assert_eq!(judged((0, 0), (2, 2), (390, 0)), BallUpdateState::Moving);
    assert_eq!(judged((374, 0), (2, 2), (390, 0)), BallUpdateState::Moving);
    assert_eq!(judged((374, 200), (2, 2), (390, 0)), BallUpdateState::Moving);
}

#[test]
fn ball_at_the_right_paddle_is_returned() {
    assert_eq!(judged((375, 0), (2, 2), (390, 0)), BallUpdateState::PaddleCollision);
    assert_eq!(judged((375, 55), (2, 2), (390, 0)), BallUpdateState::PaddleCollision);
    assert_eq!(judged((375, -55), (2, -2), (390, 0)), BallUpdateState::PaddleCollision);
    assert_eq!(judged((376, 150), (15, 2), (390, 100)), BallUpdateState::PaddleCollision);
}

#[test]
fn ball_beside_the_right_paddle_scores() {
    assert_eq!(judged((375, 56), (2, 2), (390, 0)), BallUpdateState::Scoring);
    assert_eq!(judged((375, -56), (2, 2), (390, 0)), BallUpdateState::Scoring);
    assert_eq!(judged((376, 200), (2, -2), (390, 0)), BallUpdateState::Scoring);
}

#[test]
fn ball_short_of_the_left_paddle_keeps_moving() {
    assert_eq!(judged((0, 0), (-2, 2), (-390, 0)), BallUpdateState::Moving);
    assert_eq!(judged((-374, 0), (-2, 2), (-390, 0)), BallUpdateState::Moving);
}

#[test]
fn ball_at_the_left_paddle_is_returned() {
    assert_eq!(judged((-375, 0), (-2, 2), (-390, 0)), BallUpdateState::PaddleCollision);
    assert_eq!(judged((-375, 55), (-2, 2), (-390, 0)), BallUpdateState::PaddleCollision);
    assert_eq!(judged((-375, -55), (-9, 2), (-390, 0)), BallUpdateState::PaddleCollision);
}

#[test]
fn ball_beside_the_left_paddle_scores() {
    assert_eq!(judged((-375, 56), (-2, 2), (-390, 0)), BallUpdateState::Scoring);
    assert_eq!(judged((-375, -56), (-2, 2), (-390, 0)), BallUpdateState::Scoring);
}

#[test]
fn only_the_direction_of_the_velocity_counts() {
    for vx in [1, 2, 7, 15, i32::MAX] {
        for vy in [-2, 0, 2, i32::MIN] {
            assert_eq!(judged((375, 10), (vx, vy), (390, 0)), BallUpdateState::PaddleCollision);
            assert_eq!(judged((375, 90), (vx, vy), (390, 0)), BallUpdateState::Scoring);
            assert_eq!(judged((374, 90), (vx, vy), (390, 0)), BallUpdateState::Moving);
        }
    }
    for vx in [-1, -2, -15, i32::MIN] {
        assert_eq!(judged((-375, 10), (vx, 2), (-390, 0)), BallUpdateState::PaddleCollision);
        assert_eq!(judged((-375, 90), (vx, 2), (-390, 0)), BallUpdateState::Scoring);
        assert_eq!(judged((-374, 90), (vx, 2), (-390, 0)), BallUpdateState::Moving);
    }
}

#[test]
fn ball_far_outside_is_judged_without_overflow() {
    assert_eq!(judged((i32::MAX, 0), (2, 2), (390, 0)), BallUpdateState::PaddleCollision);
    assert_eq!(judged((i32::MIN, 0), (-2, 2), (-390, 0)), BallUpdateState::PaddleCollision);
    assert_eq!(judged((i32::MAX, i32::MAX), (2, 2), (390, 0)), BallUpdateState::Scoring);
    assert_eq!(judged((i32::MIN, 0), (2, 2), (390, 0)), BallUpdateState::Moving);
}

#[test]
fn bounce_reverses_and_adds_one() {
    assert_eq!(bounce(2), -3);
    assert_eq!(bounce(-3), 4);
    assert_eq!(bounce(4), -5);
    assert_eq!(bounce(-13), 14);
    assert_eq!(bounce(13), -14);
    assert_eq!(bounce(1), -2);
    assert_eq!(bounce(-1), 2);
}

#[test]
fn bounce_stops_at_the_speed_limit() {
    assert_eq!(bounce(14), -15);
    assert_eq!(bounce(-14), 15);
    assert_eq!(bounce(15), -15);
    assert_eq!(bounce(-15), 15);
    assert_eq!(bounce(100), -15);
    assert_eq!(bounce(-100), 15);
    assert_eq!(bounce(i32::MAX), -15);
    assert_eq!(bounce(i32::MIN), 15);
}

#[test]
fn bounce_never_exceeds_the_limit_and_grows_by_one_below_it() {
    let mut vx = -40;
    while vx <= 40 {
        let out = bounce(vx);
        assert!(-BALL_MAX_SPEED <= out && out <= BALL_MAX_SPEED);
        if vx != 0 {
            assert_eq!(out.signum(), -vx.signum());
            assert_eq!(out.abs(), (vx.abs() + 1).min(BALL_MAX_SPEED));
        }
        vx += 1;
    }
    assert_eq!(bounce(0), -1);
}

#[test]
fn serve_sends_the_ball_back_the_way_it_came() {
    assert_eq!(serve(2), Point { x: -2, y: 2 });
    assert_eq!(serve(15), Point { x: -2, y: 2 });
    assert_eq!(serve(-2), Point { x: 2, y: 2 });
    assert_eq!(serve(-15), Point { x: 2, y: 2 });
}

#[test]
fn ball_new_keeps_what_it_is_given() {
    let ball = Ball::new(2, Point::new(2, 2));
    assert_eq!(ball.entity_index(), 2);
    assert_eq!(ball.movement, Point { x: 2, y: 2 });
}
