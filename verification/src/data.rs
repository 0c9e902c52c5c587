//! What the game is made of: the entities on the field, and the paddles and
//! the ball that steer them.
//!
//! Entities live in one ordered store. A paddle or a ball does not own its
//! entity; it holds the entity's index in the store.

use vstd::prelude::*;
use crate::geometry::{Point, Rect};
use crate::gui::{Color, Label, Raster};
use crate::text::{decimal, score_text};

verus! {

/// A region of an image.
pub struct Sprite<'a, T> {
    pub texture: &'a T,
    pub rect: Rect,
}

/// Something on the field: where its centre is, how large it is drawn, and
/// what is drawn.
pub struct Entity<'a, T> {
    pub position: Point,
    pub size: (u32, u32),
    pub sprite: Sprite<'a, T>,
}

impl<'a, T> Entity<'a, T> {
    /// This entity moved to `position`.
    pub open spec fn at(self, position: Point) -> Self {
        Entity { position, size: self.size, sprite: self.sprite }
    }
}

/// A player: the entity that is the player's paddle, how fast it is moving
/// up or down, the score, and the label that shows the score.
pub struct Paddle<I, R> {
    pub entity_index: usize,
    pub movement: i32,
    pub score: u64,
    pub label: Label<I, R>,
}

impl<I, R: Fn(&String, Color) -> Result<Raster<I>, String>> Paddle<I, R> {
    /// This paddle is `before` with one more point: the label's text is the
    /// new score in decimal and its cache is empty. Nothing else differs.
    pub open spec fn scored_from(&self, before: Self) -> bool {
        &&& self.entity_index == before.entity_index
        &&& self.movement == before.movement
        &&& self.score == before.score + 1
        &&& self.label.same_settings(before.label)
        &&& self.label.spec_text()@ == decimal(self.score as nat)
        &&& self.label.spec_cache() is None
        &&& before.label.wf() ==> self.label.wf()
    }

    /// A player with the given paddle entity, velocity, score and label. The
    /// label is taken as it is; its text is not rewritten to the score.
    pub fn new(entity_index: usize, movement: i32, score: u64, label: Label<I, R>) -> (paddle:
        Paddle<I, R>)
        ensures
            paddle == (Paddle { entity_index, movement, score, label }),
    {
        Paddle { entity_index, movement, score, label }
    }

    /// The index of the paddle's entity in the store.
    pub fn entity_index(&self) -> (index: usize)
        ensures
            index == self.entity_index,
    {
        self.entity_index
    }

    /// The points made so far.
    pub fn score(&self) -> (score: u64)
        ensures
            score == self.score,
    {
        self.score
    }

    /// Adds a point and rewrites the label.
    pub fn increase_score(&mut self)
        requires
            old(self).score < u64::MAX,
        ensures
            final(self).scored_from(*old(self)),
    {
        self.score += 1;
        self.label.set_text(score_text(self.score));
    }
}

/// The ball: the entity that is drawn for it, and its velocity.
pub struct Ball {
    pub entity_index: usize,
    pub movement: Point,
}

impl Ball {
    /// A ball with the given entity and velocity.
    pub fn new(entity_index: usize, movement: Point) -> (ball: Ball)
        ensures
            ball == (Ball { entity_index, movement }),
    {
        Ball { entity_index, movement }
    }

    /// The index of the ball's entity in the store.
    pub fn entity_index(&self) -> (index: usize)
        ensures
            index == self.entity_index,
    {
        self.entity_index
    }
}

} // verus!
