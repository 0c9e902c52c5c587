//! Where on the screen things go.
//!
//! Positions in the game are relative to the centre of the field. The
//! functions here work out the screen rectangle into which each entity and
//! each label is to be drawn; the drawing itself is the caller's.

use vstd::prelude::*;
use crate::config::{WINDOW_HALF_HEIGHT, WINDOW_HALF_WIDTH};
use crate::data::Entity;
use crate::geometry::{Point, Rect, RectView};
use crate::gui::{failure, Color, Label, Raster};

verus! {

/// The screen rectangles of one frame: one per entity, in the order of the
/// store, and one for each score label.
pub struct DrawList {
    pub entities: Vec<Rect>,
    pub paddle1_label: Rect,
    pub paddle2_label: Rect,
}

/// The screen rectangle of something of the given size whose centre is at
/// `position` on the field.
pub open spec fn screen_rect(position: Point, width: int, height: int) -> RectView {
    let center = Point::spec_new(WINDOW_HALF_WIDTH as int, WINDOW_HALF_HEIGHT as int).spec_offset(
        position.x as int,
        position.y as int,
    );
    RectView::centered(center.x as int, center.y as int, width, height)
}

/// The screen rectangle of a label whose cache holds `raster`.
pub open spec fn label_rect<I>(position: Point, raster: Raster<I>) -> RectView {
    screen_rect(position, raster.width as int, raster.height as int)
}

/// The screen rectangle into which an entity's sprite is drawn.
pub fn render_entity<T>(entity: &Entity<T>) -> (target: Rect)
    ensures
        target@ == screen_rect(entity.position, entity.size.0 as int, entity.size.1 as int),
{
    let center_screen = Point::new(WINDOW_HALF_WIDTH, WINDOW_HALF_HEIGHT);
    let position_in_screen = center_screen.plus(entity.position);
    Rect::from_center(position_in_screen, entity.size.0, entity.size.1)
}

/// The screen rectangle into which a label's image is drawn. The image is
/// rasterised now if the label has none; afterwards [`Label::texture`] hands
/// it out without rasterising again.
pub fn render_label<I, R: Fn(&String, Color) -> Result<Raster<I>, String>>(
    label: &mut Label<I, R>,
) -> (res: Result<Rect, String>)
    requires
        old(label).wf(),
    ensures
        final(label).wf(),
        final(label).read_from(*old(label), failure(res)),
        res matches Ok(target) ==> final(label).spec_cache() matches Some(raster) && target@
            == label_rect(old(label).spec_position(), raster),
{
    let center_screen = Point::new(WINDOW_HALF_WIDTH, WINDOW_HALF_HEIGHT);
    let position_in_screen = center_screen.plus(label.position());
    let width = label.width()?;
    let height = label.height()?;
    Ok(Rect::from_center(position_in_screen, width, height))
}

/// The screen rectangles of a whole frame: the entities first, then the
/// first player's label, then the second's.
///
/// Fails with the rasteriser's error if a label has to be rasterised and
/// cannot be; a failure at the first label leaves the second untouched.
pub fn render<T, I, R: Fn(&String, Color) -> Result<Raster<I>, String>>(
    entities: &Vec<Entity<T>>,
    paddle1_label: &mut Label<I, R>,
    paddle2_label: &mut Label<I, R>,
) -> (res: Result<DrawList, String>)
    requires
        old(paddle1_label).wf(),
        old(paddle2_label).wf(),
    ensures
        final(paddle1_label).wf(),
        final(paddle2_label).wf(),
        match res {
            Ok(list) => {
                &&& list.entities@.len() == entities@.len()
                &&& forall|i: int|
                    0 <= i < entities@.len() ==> (#[trigger] list.entities@[i])@ == screen_rect(
                        entities@[i].position,
                        entities@[i].size.0 as int,
                        entities@[i].size.1 as int,
                    )
                &&& final(paddle1_label).read_from(*old(paddle1_label), None)
                &&& final(paddle2_label).read_from(*old(paddle2_label), None)
                &&& final(paddle1_label).spec_cache() matches Some(raster)
                    && list.paddle1_label@ == label_rect(
                    old(paddle1_label).spec_position(),
                    raster,
                )
                &&& final(paddle2_label).spec_cache() matches Some(raster)
                    && list.paddle2_label@ == label_rect(
                    old(paddle2_label).spec_position(),
                    raster,
                )
            },
            Err(e) => {
                ||| {
                    &&& final(paddle1_label).read_from(*old(paddle1_label), Some(e))
                    &&& *final(paddle2_label) == *old(paddle2_label)
                }
                ||| {
                    &&& final(paddle1_label).read_from(*old(paddle1_label), None)
                    &&& final(paddle2_label).read_from(*old(paddle2_label), Some(e))
                }
            },
        },
{
    let mut targets: Vec<Rect> = Vec::new();
    let mut i: usize = 0;
    while i < entities.len()
        invariant
            i <= entities.len(),
            targets@.len() == i,
            forall|j: int|
                0 <= j < i ==> (#[trigger] targets@[j])@ == screen_rect(
                    entities@[j].position,
                    entities@[j].size.0 as int,
                    entities@[j].size.1 as int,
                ),
        decreases entities.len() - i,
    {
        targets.push(render_entity(&entities[i]));
        i += 1;
    }
    let paddle1_target = render_label(paddle1_label)?;
    let paddle2_target = render_label(paddle2_label)?;
    Ok(DrawList { entities: targets, paddle1_label: paddle1_target, paddle2_label: paddle2_target })
}

} // verus!
