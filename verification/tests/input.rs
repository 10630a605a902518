use tileboard::input::{CursorState, ElementState, Input, KeyCode, MouseButton, RawEvent};
use tileboard::position::Position;

const LEFT_PRESS: RawEvent = RawEvent::MouseInput(ElementState::Pressed, MouseButton::Left);

#[test]
fn click_uses_the_move_of_the_same_batch() {
    let mut cursor = CursorState::new();
    assert_eq!(cursor.translate(&vec![RawEvent::MouseMoved(700, 400)]), None);
    assert_eq!(cursor, CursorState { x: 700, y: 400 });
    let emitted = cursor.translate(&vec![RawEvent::MouseMoved(150, 250), LEFT_PRESS]);
    assert_eq!(emitted, Some(Input::TileClick(Position::new(2, 3))));
    assert_eq!(cursor, CursorState { x: 150, y: 250 });
}

#[test]
fn click_without_a_move_uses_the_last_known_cursor() {
    let mut cursor = CursorState::new();
    assert_eq!(cursor.translate(&vec![LEFT_PRESS]), Some(Input::TileClick(Position::new(1, 1))));
    cursor.translate(&vec![RawEvent::MouseMoved(799, 499)]);
    assert_eq!(cursor.translate(&vec![LEFT_PRESS]), Some(Input::TileClick(Position::new(8, 5))));
}

#[test]
fn click_beyond_the_board_is_not_clamped() {
    let mut cursor = CursorState::new();
    let emitted = cursor.translate(&vec![RawEvent::MouseMoved(4000, 900), LEFT_PRESS]);
    assert_eq!(emitted, Some(Input::TileClick(Position::new(41, 10))));
}

#[test]
fn each_event_kind_alone() {
    let mut cursor = CursorState { x: 10, y: 20 };
    assert_eq!(cursor.handle(RawEvent::Closed), Some(Input::Quit));
    assert_eq!(cursor.handle(RawEvent::MouseMoved(5, 6)), None);
    assert_eq!(cursor, CursorState { x: 5, y: 6 });
    assert_eq!(
        cursor.handle(RawEvent::KeyboardInput(ElementState::Pressed, KeyCode::X)),
        Some(Input::Action1)
    );
    assert_eq!(cursor.handle(RawEvent::KeyboardInput(ElementState::Released, KeyCode::X)), None);
    assert_eq!(cursor.handle(RawEvent::KeyboardInput(ElementState::Pressed, KeyCode::Other)), None);
    assert_eq!(cursor.handle(RawEvent::MouseInput(ElementState::Released, MouseButton::Left)), None);
    assert_eq!(cursor.handle(RawEvent::MouseInput(ElementState::Pressed, MouseButton::Right)), None);
    assert_eq!(cursor.handle(RawEvent::MouseInput(ElementState::Pressed, MouseButton::Middle)), None);
    assert_eq!(cursor.handle(RawEvent::MouseInput(ElementState::Pressed, MouseButton::Other)), None);
    assert_eq!(cursor.handle(RawEvent::Other), None);
    assert_eq!(cursor, CursorState { x: 5, y: 6 });
}

#[test]
fn empty_batch_emits_nothing() {
    let mut cursor = CursorState { x: 3, y: 4 };
    assert_eq!(cursor.translate(&vec![]), None);
    assert_eq!(cursor, CursorState { x: 3, y: 4 });
}

#[test]
fn last_emitted_input_of_a_batch_wins() {
    let key = RawEvent::KeyboardInput(ElementState::Pressed, KeyCode::X);
    let mut cursor = CursorState::new();
    assert_eq!(cursor.translate(&vec![RawEvent::Closed, key]), Some(Input::Action1));
    assert_eq!(cursor.translate(&vec![key, RawEvent::Closed]), Some(Input::Quit));
    assert_eq!(
        cursor.translate(&vec![key, LEFT_PRESS, RawEvent::Other, RawEvent::MouseMoved(1, 1)]),
        Some(Input::TileClick(Position::new(1, 1)))
    );
    assert_eq!(cursor, CursorState { x: 1, y: 1 });
}

#[test]
fn a_later_move_does_not_change_an_earlier_click() {
    let mut cursor = CursorState::new();
    let emitted = cursor.translate(&vec![
        RawEvent::MouseMoved(250, 150),
        LEFT_PRESS,
        RawEvent::MouseMoved(650, 450),
    ]);
    assert_eq!(emitted, Some(Input::TileClick(Position::new(3, 2))));
    assert_eq!(cursor, CursorState { x: 650, y: 450 });
}
