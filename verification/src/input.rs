//! From keyboard events to paddle velocities.
//!
//! The first player steers with W and S, the second with the arrow keys.
//! Escape or a quit request ends the game.

use vstd::prelude::*;
use crate::config::PADDLE_SPEED;

verus! {

/// The keys the game knows; every other key is `Other`.
#[derive(Clone, Copy, Debug, PartialEq, Eq, Structural)]
pub enum Key {
    Escape,
    W,
    S,
    Up,
    Down,
    Other,
}

/// One input event, as far as the game cares.
#[derive(Clone, Copy, Debug, PartialEq, Eq, Structural)]
pub enum InputEvent {
    /// The window was asked to close.
    Quit,
    KeyDown(Key),
    KeyUp(Key),
    /// Anything else.
    Other,
}

/// Whether the game goes on after the events of a frame.
#[derive(Clone, Copy, Debug, PartialEq, Eq, Structural)]
pub enum HandleEventsState {
    Exit,
    Running,
}

/// The event ends the game.
pub open spec fn is_exit(event: InputEvent) -> bool {
    event == InputEvent::Quit || event == InputEvent::KeyDown(Key::Escape)
}

/// The velocities of the two paddles after `event`: pressing an up key sets
/// that paddle's velocity to `-PADDLE_SPEED`, pressing a down key to
/// `PADDLE_SPEED`, releasing either to zero.
pub open spec fn steer(event: InputEvent, speeds: (i32, i32)) -> (i32, i32) {
    match event {
        InputEvent::KeyDown(Key::W) => ((-PADDLE_SPEED) as i32, speeds.1),
        InputEvent::KeyDown(Key::S) => (PADDLE_SPEED, speeds.1),
        InputEvent::KeyUp(Key::W) | InputEvent::KeyUp(Key::S) => (0, speeds.1),
        InputEvent::KeyDown(Key::Up) => (speeds.0, (-PADDLE_SPEED) as i32),
        InputEvent::KeyDown(Key::Down) => (speeds.0, PADDLE_SPEED),
        InputEvent::KeyUp(Key::Up) | InputEvent::KeyUp(Key::Down) => (speeds.0, 0),
        _ => speeds,
    }
}

/// The velocities after all of `events`, taken in order.
pub open spec fn steer_all(events: Seq<InputEvent>, speeds: (i32, i32)) -> (i32, i32)
    decreases events.len(),
{
    if events.len() == 0 {
        speeds
    } else {
        steer(events.last(), steer_all(events.drop_last(), speeds))
    }
}

/// The index of the first event that ends the game, or the number of events
/// if none does.
pub open spec fn first_exit(events: Seq<InputEvent>) -> int
    decreases events.len(),
{
    if events.len() == 0 {
        0
    } else if is_exit(events[0]) {
        0
    } else {
        1 + first_exit(events.drop_first())
    }
}

/// `first_exit` is the one index with no exit before it and, if it is an
/// index at all, an exit at it.
proof fn lemma_first_exit(events: Seq<InputEvent>, n: int)
    requires
        0 <= n <= events.len(),
        forall|j: int| 0 <= j < n ==> !is_exit(#[trigger] events[j]),
        n < events.len() ==> is_exit(events[n]),
    ensures
        first_exit(events) == n,
    decreases events.len(),
{
    if events.len() > 0 && !is_exit(events[0]) {
        let rest = events.drop_first();
        assert forall|j: int| 0 <= j < n - 1 implies !is_exit(#[trigger] rest[j]) by {
            assert(rest[j] == events[j + 1]);
        }
        lemma_first_exit(rest, n - 1);
    }
}

/// A paddle's velocity after any events is the one it had before them, or
/// one of `-PADDLE_SPEED`, zero and `PADDLE_SPEED`.
pub open spec fn steered(before: i32, after: i32) -> bool {
    after == before || after == -PADDLE_SPEED || after == 0 || after == PADDLE_SPEED
}

/// Steering never gives a paddle a velocity that no key stands for.
pub proof fn lemma_steer_all_values(events: Seq<InputEvent>, speeds: (i32, i32))
    ensures
        steered(speeds.0, steer_all(events, speeds).0),
        steered(speeds.1, steer_all(events, speeds).1),
    decreases events.len(),
{
    if events.len() > 0 {
        lemma_steer_all_values(events.drop_last(), speeds);
    }
}

/// Works through the events of one frame in order.
///
/// Events up to the first that ends the game set the paddles' velocities;
/// that event and all after it are left alone, and the answer is `Exit`.
/// Without such an event the answer is `Running`.
pub fn handle_events(
    events: &Vec<InputEvent>,
    paddle1_movement: &mut i32,
    paddle2_movement: &mut i32,
) -> (state: HandleEventsState)
    ensures
        state == (if first_exit(events@) < events.len() {
            HandleEventsState::Exit
        } else {
            HandleEventsState::Running
        }),
        (*final(paddle1_movement), *final(paddle2_movement)) == steer_all(
            events@.take(first_exit(events@)),
            (*old(paddle1_movement), *old(paddle2_movement)),
        ),
        steered(*old(paddle1_movement), *final(paddle1_movement)),
        steered(*old(paddle2_movement), *final(paddle2_movement)),
{
    let ghost start = (*paddle1_movement, *paddle2_movement);
    let mut i: usize = 0;
    while i < events.len()
        invariant
            i <= events.len(),
            start == (*old(paddle1_movement), *old(paddle2_movement)),
            forall|j: int| 0 <= j < i ==> !is_exit(#[trigger] events@[j]),
            (*paddle1_movement, *paddle2_movement) == steer_all(events@.take(i as int), start),
        decreases events.len() - i,
    {
        let event = events[i];
        assert(events@.take(i + 1).drop_last() =~= events@.take(i as int));
        assert(events@.take(i + 1).last() == event);
        match event {
            InputEvent::Quit | InputEvent::KeyDown(Key::Escape) => {
                proof {
                    lemma_first_exit(events@, i as int);
                    lemma_steer_all_values(events@.take(i as int), start);
                }
                return HandleEventsState::Exit;
            },
            InputEvent::KeyDown(Key::W) => {
                *paddle1_movement = -PADDLE_SPEED;
            },
            InputEvent::KeyDown(Key::S) => {
                *paddle1_movement = PADDLE_SPEED;
            },
            InputEvent::KeyUp(Key::W) | InputEvent::KeyUp(Key::S) => {
                *paddle1_movement = 0;
            },
            InputEvent::KeyDown(Key::Up) => {
                *paddle2_movement = -PADDLE_SPEED;
            },
            InputEvent::KeyDown(Key::Down) => {
                *paddle2_movement = PADDLE_SPEED;
            },
            InputEvent::KeyUp(Key::Up) | InputEvent::KeyUp(Key::Down) => {
                *paddle2_movement = 0;
            },
            _ => {},
        }
        i += 1;
    }
    proof {
        lemma_first_exit(events@, events@.len() as int);
        lemma_steer_all_values(events@.take(events@.len() as int), start);
    }
    HandleEventsState::Running
}

} // verus!
