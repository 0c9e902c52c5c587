use std::cell::Cell;

use pong::config::{
    BALL_HEIGHT, BALL_WIDTH, PADDLE_COLLIDER_HEIGHT, PADDLE_COLLIDER_WIDTH, PADDLE_HEIGHT,
    PADDLE_WIDTH, TARGET_FPS, WINDOW_HALF_HEIGHT, WINDOW_HALF_WIDTH, WINDOW_HEIGHT, WINDOW_WIDTH,
};
use pong::data::{Entity, Sprite};
use pong::geometry::{Point, Rect};
use pong::gui::{Color, Label, Raster};
use pong::render::{render, render_entity, render_label};

fn sized(text: &String, _color: Color) -> Result<Raster<u32>, String> {
    match text.parse::<u32>() {
        Ok(n) => Ok(Raster { image: n, width: 30 * text.len() as u32, height: 60 }),
        Err(_) => Err(format!("cannot draw {:?}", text)),
    }
}

fn entity(sheet: &u8, position: Point, size: (u32, u32)) -> Entity<'_, u8> {
    Entity { position, size, sprite: Sprite { texture: sheet, rect: Rect::new(0, 0, size.0, size.1) } }
}

fn corners(rect: Rect) -> (i32, i32, i32, i32) {
    (rect.left(), rect.top(), rect.right(), rect.bottom())
}

#[test]
fn measures_of_the_window_and_the_sprites() {
    assert_eq!((WINDOW_WIDTH, WINDOW_HEIGHT), (800, 600));
    assert_eq!((WINDOW_HALF_WIDTH, WINDOW_HALF_HEIGHT), (400, 300));
    assert_eq!((PADDLE_WIDTH, PADDLE_HEIGHT), (52, 150));
    assert_eq!((PADDLE_COLLIDER_WIDTH, PADDLE_COLLIDER_HEIGHT), (10, 110));
    assert_eq!((BALL_WIDTH, BALL_HEIGHT), (51, 51));
    assert_eq!(TARGET_FPS, 60);
}

#[test]
fn entity_at_the_centre_of_the_field_is_drawn_mid_screen() {
    let sheet = 0u8;
    let ball = entity(&sheet, Point::new(0, 0), (51, 51));
    assert_eq!(corners(render_entity(&ball)), (375, 275, 426, 326));
}

#[test]
fn paddles_are_drawn_at_the_sides() {
    let sheet = 0u8;
    let left = entity(&sheet, Point::new(-390, 0), (52, 150));
    let right = entity(&sheet, Point::new(390, 100), (52, 150));
    assert_eq!(render_entity(&left), Rect::new(-16, 225, 52, 150));
    assert_eq!(render_entity(&right), Rect::new(764, 325, 52, 150));
}

#[test]
fn label_is_drawn_centred_on_its_position() {
    let mut label =
        Label::new(String::from("0"), sized, Point::new(-200, -240), Color::rgb(255, 0, 0)).unwrap();
    assert_eq!(render_label(&mut label), Ok(Rect::new(185, 30, 30, 60)));
    label.set_text(String::from("12"));
    assert_eq!(render_label(&mut label), Ok(Rect::new(170, 30, 60, 60)));
    assert_eq!(label.texture(), Ok(&12));
}

#[test]
fn label_that_cannot_be_rasterised_is_not_placed() {
    let mut label =
        Label::new(String::from("0"), sized, Point::new(0, 0), Color::rgb(255, 0, 0)).unwrap();
    label.set_text(String::from("zero"));
    assert_eq!(render_label(&mut label), Err(String::from("cannot draw \"zero\"")));
}

#[test]
fn render_label_rasterises_at_most_once() {
    let calls = Cell::new(0);
    let rasterizer = |text: &String, color: Color| {
        calls.set(calls.get() + 1);
        sized(text, color)
    };
    let mut label =
        Label::new(String::from("0"), rasterizer, Point::new(0, 0), Color::rgb(255, 0, 0)).unwrap();
    render_label(&mut label).unwrap();
    assert_eq!(calls.get(), 1);
    label.set_text(String::from("1"));
    render_label(&mut label).unwrap();
    render_label(&mut label).unwrap();
    assert_eq!(label.texture(), Ok(&1));
    assert_eq!(calls.get(), 2);
}

#[test]
fn render_places_entities_in_store_order_then_the_labels() {
    let sheet = 0u8;
    let entities = vec![
        entity(&sheet, Point::new(-390, 0), (52, 150)),
        entity(&sheet, Point::new(390, 0), (52, 150)),
        entity(&sheet, Point::new(0, 0), (51, 51)),
    ];
    let mut label1 =
        Label::new(String::from("3"), sized, Point::new(-200, -240), Color::rgb(255, 0, 0)).unwrap();
    let mut label2 =
        Label::new(String::from("10"), sized, Point::new(200, -240), Color::rgb(0, 0, 255)).unwrap();
    let list = render(&entities, &mut label1, &mut label2).unwrap();
    assert_eq!(
        list.entities,
        vec![
            Rect::new(-16, 225, 52, 150),
            Rect::new(764, 225, 52, 150),
            Rect::new(375, 275, 51, 51),
        ]
    );
    assert_eq!(list.paddle1_label, Rect::new(185, 30, 30, 60));
    assert_eq!(list.paddle2_label, Rect::new(570, 30, 60, 60));
}

#[test]
fn render_of_an_empty_store_places_only_the_labels() {
    let entities: Vec<Entity<'_, u8>> = Vec::new();
    let mut label1 =
        Label::new(String::from("0"), sized, Point::new(0, 0), Color::rgb(255, 0, 0)).unwrap();
    let mut label2 =
        Label::new(String::from("0"), sized, Point::new(0, 0), Color::rgb(0, 0, 255)).unwrap();
    let list = render(&entities, &mut label1, &mut label2).unwrap();
    assert!(list.entities.is_empty());
    assert_eq!(list.paddle1_label, Rect::new(385, 270, 30, 60));
    assert_eq!(list.paddle2_label, list.paddle1_label);
}

#[test]
fn render_fails_when_the_first_label_cannot_be_rasterised() {
    let calls = Cell::new(0);
    let rasterizer = |text: &String, color: Color| {
        calls.set(calls.get() + 1);
        sized(text, color)
    };
    let entities: Vec<Entity<'_, u8>> = Vec::new();
    let mut label1 =
        Label::new(String::from("0"), rasterizer, Point::new(0, 0), Color::rgb(255, 0, 0)).unwrap();
    let mut label2 =
        Label::new(String::from("0"), rasterizer, Point::new(0, 0), Color::rgb(0, 0, 255)).unwrap();
    label1.set_text(String::from("one"));
    label2.set_text(String::from("2"));
    assert_eq!(calls.get(), 2);
    let failed = render(&entities, &mut label1, &mut label2);
    assert_eq!(failed.err(), Some(String::from("cannot draw \"one\"")));
    assert_eq!(calls.get(), 3);
}

#[test]
fn render_fails_when_the_second_label_cannot_be_rasterised() {
    let entities: Vec<Entity<'_, u8>> = Vec::new();
    let mut label1 =
        Label::new(String::from("0"), sized, Point::new(0, 0), Color::rgb(255, 0, 0)).unwrap();
    let mut label2 =
        Label::new(String::from("0"), sized, Point::new(0, 0), Color::rgb(0, 0, 255)).unwrap();
    label2.set_text(String::from("two"));
    let failed = render(&entities, &mut label1, &mut label2);
    assert_eq!(failed.err(), Some(String::from("cannot draw \"two\"")));
    assert_eq!(label1.width(), Ok(30));
}
