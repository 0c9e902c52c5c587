//! One frame of play: the ball moves and bounces off the top and bottom
//! walls, the paddles move unless a wall stops them, and the ball either
//! keeps going, is returned by a paddle, or gets past it and scores.

use vstd::prelude::*;
use vstd::math::abs;
use crate::config::{
    BALL_MAX_SPEED,
    BALL_RADIUS,
    BALL_SPEED,
    PADDLE_COLLIDER_HEIGHT,
    PADDLE_COLLIDER_WIDTH,
    WINDOW_HALF_HEIGHT,
};
use crate::data::{Ball, Entity, Paddle};
use crate::geometry::{Point, Rect, RectView};
use crate::gui::{Color, Raster};

verus! {

/// What became of the ball at the paddles in one frame.
#[derive(Clone, Copy, Debug, PartialEq, Eq, Structural)]
pub enum BallUpdateState {
    /// The paddle it was flying toward returned it.
    PaddleCollision,
    /// It got past the paddle it was flying toward.
    Scoring,
    /// Neither.
    Moving,
}

/// What became of the ball at the walls in one frame.
#[derive(Clone, Copy, Debug, PartialEq, Eq, Structural)]
pub enum BallMoveState {
    /// It bounced off the top or the bottom wall.
    WallCollision,
    /// It did not.
    Moving,
}

/// What happened in one frame; each event has its sound.
#[derive(Clone, Copy, Debug, PartialEq, Eq, Structural)]
pub struct FrameEvents {
    pub wall: BallMoveState,
    pub ball: BallUpdateState,
}

/// The collider of a paddle whose centre is at `(x, y)`.
pub open spec fn paddle_collider(x: int, y: int) -> RectView {
    RectView::centered(x, y, PADDLE_COLLIDER_WIDTH as int, PADDLE_COLLIDER_HEIGHT as int)
}

/// The collider lies between the top and the bottom wall.
pub open spec fn collider_in_field(collider: RectView) -> bool {
    collider.top() >= -WINDOW_HALF_HEIGHT && collider.bottom() <= WINDOW_HALF_HEIGHT
}

/// Where a paddle at `position` is after a frame in which it moves by
/// `movement`: at the new height if its collider is inside the field there,
/// else where it was.
pub open spec fn spec_move_paddle(position: Point, movement: i32) -> Point {
    let y = position.y + movement;
    if collider_in_field(paddle_collider(position.x as int, y)) {
        Point { x: position.x, y: y as i32 }
    } else {
        position
    }
}

/// A paddle's collider is inside the field exactly when the paddle's centre
/// is at most 245 above or below the middle line. So a paddle at height `y`
/// with velocity `v` ends the frame at `y + v` if that is within 245 of the
/// middle line, and where it was if not; and a paddle inside the field
/// never leaves it.
pub proof fn lemma_paddle_moves_or_stays(position: Point, movement: i32)
    ensures
        forall|x: int, y: int| #[trigger]
            collider_in_field(paddle_collider(x, y)) <==> -245 <= y <= 245,
        -245 <= position.y + movement <= 245 ==> spec_move_paddle(position, movement) == (Point {
            x: position.x,
            y: (position.y + movement) as i32,
        }),
        !(-245 <= position.y + movement <= 245) ==> spec_move_paddle(position, movement)
            == position,
        -245 <= position.y <= 245 ==> -245 <= spec_move_paddle(position, movement).y <= 245,
{
}

/// Moves a paddle up or down by `movement`, unless its collider would leave
/// the field; then the paddle stays where it is.
pub fn move_paddle<T>(paddle: &mut Entity<T>, movement: i32)
    ensures
        *final(paddle) == old(paddle).at(spec_move_paddle(old(paddle).position, movement)),
{
    let wide: i64 = paddle.position.y as i64 + movement as i64;
    if wide < i32::MIN as i64 || wide > i32::MAX as i64 {
        return;
    }
    let position_y: i32 = wide as i32;
    let position = Point::new(paddle.position.x, position_y);
    let collider_rect = Rect::from_center(position, PADDLE_COLLIDER_WIDTH, PADDLE_COLLIDER_HEIGHT);
    let window_top: i32 = -WINDOW_HALF_HEIGHT;
    let window_bottom: i32 = WINDOW_HALF_HEIGHT;
    if collider_rect.top() >= window_top && collider_rect.bottom() <= window_bottom {
        paddle.position.y = position_y;
    }
}

/// The ball, moved by its velocity, would reach over the top or the bottom
/// wall.
pub open spec fn ball_hits_wall(position: Point, movement: Point) -> bool {
    let y = position.y + movement.y;
    y - BALL_RADIUS < -WINDOW_HALF_HEIGHT || y + BALL_RADIUS > WINDOW_HALF_HEIGHT
}

/// The velocity after the walls had their say: mirrored vertically if the
/// ball would hit one, else unchanged.
pub open spec fn spec_deflect(position: Point, movement: Point) -> Point {
    if ball_hits_wall(position, movement) {
        Point { x: movement.x, y: (-movement.y) as i32 }
    } else {
        movement
    }
}

/// The ball hits a wall exactly when its centre would come closer than its
/// radius to the top or the bottom of the field. Then its vertical velocity
/// changes sign and nothing else; without a hit the velocity stays as it is.
pub proof fn lemma_wall_reflection(position: Point, movement: Point)
    requires
        movement.y > i32::MIN,
    ensures
        ball_hits_wall(position, movement) <==> !(-289 <= position.y + movement.y <= 289),
        ball_hits_wall(position, movement) ==> spec_deflect(position, movement) == (Point {
            x: movement.x,
            y: (-movement.y) as i32,
        }) && spec_deflect(position, movement).y == -movement.y,
        !ball_hits_wall(position, movement) ==> spec_deflect(position, movement) == movement,
{
}

/// Moves the ball one frame. If the move would take it over the top or the
/// bottom wall, its vertical velocity is mirrored first; then the ball
/// advances by the velocity it now has.
pub fn move_ball<T>(ball: &mut Entity<T>, movement: &mut Point) -> (state: BallMoveState)
    requires
        ball_hits_wall(old(ball).position, *old(movement)) ==> old(movement).y > i32::MIN,
    ensures
        state == (if ball_hits_wall(old(ball).position, *old(movement)) {
            BallMoveState::WallCollision
        } else {
            BallMoveState::Moving
        }),
        *final(movement) == spec_deflect(old(ball).position, *old(movement)),
        *final(ball) == old(ball).at(
            old(ball).position.spec_offset(final(movement).x as int, final(movement).y as int),
        ),
{
    let position = ball.position.plus(*movement);
    let window_top: i32 = -WINDOW_HALF_HEIGHT;
    let window_bottom: i32 = WINDOW_HALF_HEIGHT;
    let result: BallMoveState;
    if position.y - BALL_RADIUS < window_top || position.y + BALL_RADIUS > window_bottom {
        movement.y = -movement.y;
        result = BallMoveState::WallCollision;
    } else {
        result = BallMoveState::Moving;
    }
    ball.position = ball.position.plus(*movement);
    result
}

/// The sign of `v`: 1, 0 or -1.
pub open spec fn signum(v: int) -> int {
    if v > 0 {
        1
    } else if v < 0 {
        -1
    } else {
        0
    }
}

/// The leading edge of a ball flying in `direction` (positive: to the
/// right, negative: to the left) is past the near edge of the collider of
/// the paddle at `paddle`. A ball that does not move sideways has no
/// leading edge.
pub open spec fn leading_edge_crossed(ball: Point, direction: int, paddle: Point) -> bool {
    let collider = paddle_collider(paddle.x as int, paddle.y as int);
    ||| direction > 0 && ball.x + BALL_RADIUS > collider.left()
    ||| direction < 0 && ball.x - BALL_RADIUS < collider.right()
}

/// The ball's centre is level with the collider of the paddle at `paddle`.
pub open spec fn within_span(ball: Point, paddle: Point) -> bool {
    let collider = paddle_collider(paddle.x as int, paddle.y as int);
    collider.top() <= ball.y <= collider.bottom()
}

/// What becomes of a ball at `ball` with velocity `movement` at the paddle
/// at `paddle`, the paddle it is flying toward.
pub open spec fn spec_ball_state(ball: Point, movement: Point, paddle: Point) -> BallUpdateState {
    if !leading_edge_crossed(ball, movement.x as int, paddle) {
        BallUpdateState::Moving
    } else if within_span(ball, paddle) {
        BallUpdateState::PaddleCollision
    } else {
        BallUpdateState::Scoring
    }
}

/// A ball is returned exactly when its leading edge is past the collider's
/// near edge and its centre is level with the collider, and it scores
/// exactly when the edge is past and the centre is not level; so the two
/// never happen together. Of the velocity only the sign of its horizontal
/// part matters: two velocities that agree in it give the same outcome.
pub proof fn lemma_ball_state_factors(ball: Point, movement: Point, other: Point, paddle: Point)
    ensures
        spec_ball_state(ball, movement, paddle) == BallUpdateState::PaddleCollision <==> (
        leading_edge_crossed(ball, signum(movement.x as int), paddle) && within_span(
            ball,
            paddle,
        )),
        spec_ball_state(ball, movement, paddle) == BallUpdateState::Scoring <==> (
        leading_edge_crossed(ball, signum(movement.x as int), paddle) && !within_span(
            ball,
            paddle,
        )),
        signum(movement.x as int) == signum(other.x as int) ==> spec_ball_state(
            ball,
            movement,
            paddle,
        ) == spec_ball_state(ball, other, paddle),
{
}

/// Decides whether the ball is returned by `paddle`, gets past it, or
/// neither. `paddle` is the paddle on the side the ball is flying toward.
pub fn update_ball_state<T>(ball: &Entity<T>, ball_movement: Point, paddle: &Entity<T>) -> (state:
    BallUpdateState)
    ensures
        state == spec_ball_state(ball.position, ball_movement, paddle.position),
{
    if ball_movement.x == 0 {
        return BallUpdateState::Moving;
    }
    let paddle_collider_rect = Rect::from_center(
        paddle.position,
        PADDLE_COLLIDER_WIDTH,
        PADDLE_COLLIDER_HEIGHT,
    );
    let crossed = if ball_movement.x > 0 {
        ball.position.x as i64 + BALL_RADIUS as i64 > paddle_collider_rect.left() as i64
    } else {
        (ball.position.x as i64 - BALL_RADIUS as i64) < paddle_collider_rect.right() as i64
    };
    if crossed {
        if ball.position.y >= paddle_collider_rect.top() && ball.position.y
            <= paddle_collider_rect.bottom() {
            return BallUpdateState::PaddleCollision;
        } else {
            return BallUpdateState::Scoring;
        }
    }
    BallUpdateState::Moving
}

/// The horizontal velocity `vx` turned round and made one faster.
pub open spec fn spec_push(vx: int) -> int {
    let reversed = -vx;
    if reversed > 0 {
        reversed + 1
    } else {
        reversed - 1
    }
}

/// `vx` held to at most `BALL_MAX_SPEED` in either direction.
pub open spec fn spec_limit(vx: int) -> int {
    if vx > 0 {
        if vx < BALL_MAX_SPEED {
            vx
        } else {
            BALL_MAX_SPEED as int
        }
    } else {
        if vx > -BALL_MAX_SPEED {
            vx
        } else {
            -BALL_MAX_SPEED
        }
    }
}

/// The horizontal velocity of a ball that a paddle has returned.
pub open spec fn spec_bounce(vx: int) -> int {
    spec_limit(spec_push(vx))
}

/// A returned ball flies the other way and, before the limit is applied, one
/// unit faster. With the limit applied it is never faster than
/// `BALL_MAX_SPEED` in either direction, and the limit changes nothing that
/// is within it.
pub proof fn lemma_bounce(vx: int)
    ensures
        abs(spec_push(vx)) == abs(vx) + 1,
        vx > 0 ==> spec_push(vx) < 0,
        vx < 0 ==> spec_push(vx) > 0,
        -BALL_MAX_SPEED <= spec_bounce(vx) <= BALL_MAX_SPEED,
        abs(spec_push(vx)) <= BALL_MAX_SPEED ==> spec_bounce(vx) == spec_push(vx),
        abs(spec_push(vx)) > BALL_MAX_SPEED ==> abs(spec_bounce(vx)) == BALL_MAX_SPEED,
        signum(spec_bounce(vx)) == signum(spec_push(vx)),
{
}

/// The horizontal velocity after a paddle returned the ball: reversed, one
/// unit faster, and no faster than `BALL_MAX_SPEED`.
pub fn bounce(vx: i32) -> (r: i32)
    ensures
        r == spec_bounce(vx as int),
{
    let reversed: i64 = -(vx as i64);
    let pushed: i64 = if reversed > 0 { reversed + 1 } else { reversed - 1 };
    if pushed > BALL_MAX_SPEED as i64 {
        BALL_MAX_SPEED
    } else if pushed < -(BALL_MAX_SPEED as i64) {
        -BALL_MAX_SPEED
    } else {
        pushed as i32
    }
}

/// The velocity with which the ball is served after a point, `vx` being the
/// horizontal velocity with which it got past the paddle: the ball starts
/// back the way it came, toward the player who made the point.
pub open spec fn spec_serve(vx: int) -> Point {
    Point { x: if vx > 0 { (-BALL_SPEED) as i32 } else { BALL_SPEED }, y: BALL_SPEED }
}

/// A served ball has speed `BALL_SPEED` along each axis, flies downward, and
/// flies to the left exactly if the ball that made the point flew to the
/// right.
pub proof fn lemma_serve(vx: int)
    ensures
        abs(spec_serve(vx).x as int) == BALL_SPEED,
        spec_serve(vx).y == BALL_SPEED,
        spec_serve(vx).x < 0 <==> vx > 0,
{
}

/// The velocity of a served ball.
pub fn serve(vx: i32) -> (movement: Point)
    ensures
        movement == spec_serve(vx as int),
{
    let x_movement: i32 = if vx > 0 { -BALL_SPEED } else { BALL_SPEED };
    Point::new(x_movement, BALL_SPEED)
}

/// The velocity of the ball once the walls had their say in this frame.
pub open spec fn frame_movement<T>(entities: Seq<Entity<T>>, ball: int, movement: Point) -> Point {
    spec_deflect(entities[ball].position, movement)
}

/// The store after the ball and then both paddles have moved in this frame.
/// `ball`, `paddle1` and `paddle2` are indices into the store, `movement` is
/// the ball's velocity when the frame starts, `v1` and `v2` are the paddles'.
pub open spec fn frame_motion<T>(
    entities: Seq<Entity<T>>,
    ball: int,
    movement: Point,
    paddle1: int,
    v1: i32,
    paddle2: int,
    v2: i32,
) -> Seq<Entity<T>> {
    let m = frame_movement(entities, ball, movement);
    let e1 = entities.update(
        ball,
        entities[ball].at(entities[ball].position.spec_offset(m.x as int, m.y as int)),
    );
    let e2 = e1.update(paddle1, e1[paddle1].at(spec_move_paddle(e1[paddle1].position, v1)));
    e2.update(paddle2, e2[paddle2].at(spec_move_paddle(e2[paddle2].position, v2)))
}

/// What becomes of the ball at the paddles in this frame. The paddle that
/// counts is the second if the ball flies to the right after the walls had
/// their say, else the first.
pub open spec fn frame_state<T>(
    entities: Seq<Entity<T>>,
    ball: int,
    movement: Point,
    paddle1: int,
    v1: i32,
    paddle2: int,
    v2: i32,
) -> BallUpdateState {
    let m = frame_movement(entities, ball, movement);
    let moved = frame_motion(entities, ball, movement, paddle1, v1, paddle2, v2);
    let target = if m.x > 0 { paddle2 } else { paddle1 };
    spec_ball_state(moved[ball].position, m, moved[target].position)
}

/// The score, before the point, of the player who makes a point when the
/// ball gets past a paddle with horizontal velocity `vx`: the first player's
/// if the ball flew to the right, else the second's.
pub open spec fn frame_scorer(vx: i32, score1: u64, score2: u64) -> u64 {
    if vx > 0 {
        score1
    } else {
        score2
    }
}

/// Plays one frame.
///
/// The ball moves, then the first paddle, then the second. After that the
/// ball is judged at the paddle it flies toward:
/// - returned by the paddle, it flies back one unit faster, up to the limit;
/// - past the paddle, the other player gets a point and a new label text,
///   and the ball is served from the centre of the field;
/// - otherwise nothing more happens.
///
/// The events returned tell which sounds the frame asks for. A ball that
/// was within the speed limit is still within it.
pub fn update<T, I, R: Fn(&String, Color) -> Result<Raster<I>, String>>(
    entities: &mut Vec<Entity<T>>,
    ball: &mut Ball,
    paddle1: &mut Paddle<I, R>,
    paddle2: &mut Paddle<I, R>,
) -> (events: FrameEvents)
    requires
        old(ball).entity_index < old(entities).len(),
        old(paddle1).entity_index < old(entities).len(),
        old(paddle2).entity_index < old(entities).len(),
        ball_hits_wall(
            old(entities)[old(ball).entity_index as int].position,
            old(ball).movement,
        ) ==> old(ball).movement.y > i32::MIN,
        frame_state(
            old(entities)@,
            old(ball).entity_index as int,
            old(ball).movement,
            old(paddle1).entity_index as int,
            old(paddle1).movement,
            old(paddle2).entity_index as int,
            old(paddle2).movement,
        ) == BallUpdateState::Scoring ==> frame_scorer(
            frame_movement(old(entities)@, old(ball).entity_index as int, old(ball).movement).x,
            old(paddle1).score,
            old(paddle2).score,
        ) < u64::MAX,
    ensures
        ({
            let b = old(ball).entity_index as int;
            let first = old(paddle1).entity_index as int;
            let second = old(paddle2).entity_index as int;
            let v1 = old(paddle1).movement;
            let v2 = old(paddle2).movement;
            let m0 = old(ball).movement;
            let m = frame_movement(old(entities)@, b, m0);
            let moved = frame_motion(old(entities)@, b, m0, first, v1, second, v2);
            let state = frame_state(old(entities)@, b, m0, first, v1, second, v2);
            &&& events.wall == (if ball_hits_wall(old(entities)[b].position, m0) {
                BallMoveState::WallCollision
            } else {
                BallMoveState::Moving
            })
            &&& events.ball == state
            &&& final(ball).entity_index == old(ball).entity_index
            &&& abs(m0.x as int) <= BALL_MAX_SPEED ==> abs(final(ball).movement.x as int)
                <= BALL_MAX_SPEED
            &&& match state {
                BallUpdateState::Moving => {
                    &&& final(entities)@ == moved
                    &&& final(ball).movement == m
                    &&& *final(paddle1) == *old(paddle1)
                    &&& *final(paddle2) == *old(paddle2)
                },
                BallUpdateState::PaddleCollision => {
                    &&& final(entities)@ == moved
                    &&& final(ball).movement == (Point {
                        x: spec_bounce(m.x as int) as i32,
                        y: m.y,
                    })
                    &&& *final(paddle1) == *old(paddle1)
                    &&& *final(paddle2) == *old(paddle2)
                },
                BallUpdateState::Scoring => {
                    &&& final(entities)@ == moved.update(b, moved[b].at(Point { x: 0, y: 0 }))
                    &&& final(ball).movement == spec_serve(m.x as int)
                    &&& if m.x > 0 {
                        &&& final(paddle1).scored_from(*old(paddle1))
                        &&& *final(paddle2) == *old(paddle2)
                    } else {
                        &&& *final(paddle1) == *old(paddle1)
                        &&& final(paddle2).scored_from(*old(paddle2))
                    }
                },
            }
        }),
{
    let wall = move_ball(&mut entities[ball.entity_index()], &mut ball.movement);
    move_paddle(&mut entities[paddle1.entity_index()], paddle1.movement);
    move_paddle(&mut entities[paddle2.entity_index()], paddle2.movement);
    let paddle_index_collision = if ball.movement.x > 0 {
        paddle2.entity_index()
    } else {
        paddle1.entity_index()
    };
    let state = update_ball_state(
        &entities[ball.entity_index()],
        ball.movement,
        &entities[paddle_index_collision],
    );
    match state {
        BallUpdateState::Scoring => {
            if ball.movement.x > 0 {
                paddle1.increase_score();
            } else {
                paddle2.increase_score();
            }
            ball.movement = serve(ball.movement.x);
            entities[ball.entity_index()].position = Point::new(0, 0);
        },
        BallUpdateState::PaddleCollision => {
            ball.movement.x = bounce(ball.movement.x);
        },
        BallUpdateState::Moving => (),
    }
    FrameEvents { wall, ball: state }
}

} // verus!
