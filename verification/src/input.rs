use vstd::prelude::*;
use crate::canvas::{pixels_to_grid, CELL_SIZE_X, CELL_SIZE_Y};
use crate::position::Position;

verus! {

/// Whether a button or key went down or up.
#[derive(Copy, Clone, Debug, PartialEq, Eq, Structural)]
pub enum ElementState {
    Pressed,
    Released,
}

/// The buttons of the pointer.
#[derive(Copy, Clone, Debug, PartialEq, Eq, Structural)]
pub enum MouseButton {
    Left,
    Right,
    Middle,
    Other,
}

/// The keys that the board tells apart.
#[derive(Copy, Clone, Debug, PartialEq, Eq, Structural)]
pub enum KeyCode {
    /// The key that triggers the first action.
    X,
    /// Any other key.
    Other,
}

/// An event as the window reports it.
#[derive(Copy, Clone, Debug, PartialEq, Eq, Structural)]
pub enum RawEvent {
    /// The window was asked to close.
    Closed,
    /// The pointer moved to this pixel of the window.
    MouseMoved(u32, u32),
    /// A pointer button changed its state.
    MouseInput(ElementState, MouseButton),
    /// A key changed its state.
    KeyboardInput(ElementState, KeyCode),
    /// Anything else.
    Other,
}

/// An event in the board's own terms.
#[derive(Copy, Clone, Debug, PartialEq, Eq, Structural)]
pub enum Input {
    Quit,
    TileClick(Position),
    Action1,
}

/// The pixel of the window over which the pointer was last seen.
#[derive(Copy, Clone, Debug, PartialEq, Eq, Structural)]
pub struct CursorState {
    pub x: u32,
    pub y: u32,
}

/// The cell that holds the cursor's pixel.
pub open spec fn cursor_cell(cursor: CursorState) -> Position {
    Position::at(cursor.x / CELL_SIZE_X + 1, cursor.y / CELL_SIZE_Y + 1)
}

/// What one raw event does: the cursor after it, and the input it emits,
/// if any. Only a pointer move changes the cursor; closing, a press of the
/// left button and a press of `X` emit; everything else is ignored.
pub open spec fn step(cursor: CursorState, ev: RawEvent) -> (CursorState, Option<Input>) {
    match ev {
        RawEvent::Closed => (cursor, Some(Input::Quit)),
        RawEvent::MouseMoved(x, y) => (CursorState { x, y }, None),
        RawEvent::MouseInput(ElementState::Pressed, MouseButton::Left) => (
            cursor,
            Some(Input::TileClick(cursor_cell(cursor))),
        ),
        RawEvent::KeyboardInput(ElementState::Pressed, KeyCode::X) => (
            cursor,
            Some(Input::Action1),
        ),
        _ => (cursor, None),
    }
}

/// What a batch of raw events does, taken in order: the cursor after the
/// batch, and the input emitted last, if any was emitted.
pub open spec fn drain(cursor: CursorState, events: Seq<RawEvent>) -> (CursorState, Option<Input>)
    decreases events.len(),
{
    if events.len() == 0 {
        (cursor, None)
    } else {
        let before = drain(cursor, events.drop_last());
        let now = step(before.0, events.last());
        (
            now.0,
            if now.1 is Some {
                now.1
            } else {
                before.1
            },
        )
    }
}

impl CursorState {
    /// The cursor before any pointer move was seen: the window's first pixel.
    pub fn new() -> (r: CursorState)
        ensures
            r == (CursorState { x: 0, y: 0 }),
    {
        CursorState { x: 0, y: 0 }
    }

    /// Takes one raw event: updates the cursor and returns the input that
    /// the event emits, if any.
    pub fn handle(&mut self, ev: RawEvent) -> (r: Option<Input>)
        ensures
            (*final(self), r) == step(*old(self), ev),
    {
        match ev {
            RawEvent::Closed => Some(Input::Quit),
            RawEvent::MouseMoved(x, y) => {
                self.x = x;
                self.y = y;
                None
            },
            RawEvent::MouseInput(ElementState::Pressed, MouseButton::Left) => Some(
                Input::TileClick(pixels_to_grid(self.x, self.y)),
            ),
            RawEvent::KeyboardInput(ElementState::Pressed, KeyCode::X) => Some(Input::Action1),
            _ => None,
        }
    }

    /// Takes a batch of raw events in order and returns the input emitted
    /// last, if any was emitted: earlier ones of the same batch are dropped.
    pub fn translate(&mut self, events: &Vec<RawEvent>) -> (r: Option<Input>)
        ensures
            (*final(self), r) == drain(*old(self), events@),
    {
        let mut result: Option<Input> = None;
        let mut i: usize = 0;
        assert(events@.take(0) =~= Seq::empty());
        while i < events.len()
            invariant
                i <= events.len(),
                (*self, result) == drain(*old(self), events@.take(i as int)),
            decreases events.len() - i,
        {
            proof {
                assert(events@.take(i + 1) =~= events@.take(i as int).push(events@[i as int]));
                lemma_last_emitted_wins(*old(self), events@.take(i as int), events@[i as int]);
            }
            let emitted = self.handle(events[i]);
            if emitted.is_some() {
                result = emitted;
            }
            i = i + 1;
        }
        assert(events@.take(events.len() as int) =~= events@);
        result
    }
}

/// A pointer move followed by a press of the left button emits one click,
/// on the cell under the pixel that the move reported, wherever the cursor
/// stood before.
pub proof fn lemma_click_follows_move(cursor: CursorState, x: u32, y: u32)
    ensures
        drain(
            cursor,
            seq![
                RawEvent::MouseMoved(x, y),
                RawEvent::MouseInput(ElementState::Pressed, MouseButton::Left),
            ],
        ) == (
            CursorState { x, y },
            Some(Input::TileClick(Position::at(x / CELL_SIZE_X + 1, y / CELL_SIZE_Y + 1))),
        ),
        Position::at(x / CELL_SIZE_X + 1, y / CELL_SIZE_Y + 1).col() == x / CELL_SIZE_X + 1,
        Position::at(x / CELL_SIZE_X + 1, y / CELL_SIZE_Y + 1).row() == y / CELL_SIZE_Y + 1,
{
    assert(CELL_SIZE_X == 100 && CELL_SIZE_Y == 100);
    Position::lemma_at_components(x / CELL_SIZE_X + 1, y / CELL_SIZE_Y + 1);
    let moved = RawEvent::MouseMoved(x, y);
    let pressed = RawEvent::MouseInput(ElementState::Pressed, MouseButton::Left);
    let batch = seq![moved, pressed];
    assert(batch.drop_last() =~= seq![moved]);
    assert(seq![moved].drop_last() =~= Seq::<RawEvent>::empty());
    assert(drain(cursor, Seq::<RawEvent>::empty()) == (cursor, None::<Input>));
    assert(drain(cursor, seq![moved]) == (CursorState { x, y }, None::<Input>));
}

/// Within a batch the last emitted input wins: an emitting event at the end
/// of a batch decides the result, and one that emits nothing leaves the
/// result of the events before it.
pub proof fn lemma_last_emitted_wins(cursor: CursorState, events: Seq<RawEvent>, ev: RawEvent)
    ensures
        step(drain(cursor, events).0, ev).1 is Some ==> drain(cursor, events.push(ev)).1 == step(
            drain(cursor, events).0,
            ev,
        ).1,
        step(drain(cursor, events).0, ev).1 is None ==> drain(cursor, events.push(ev)).1 == drain(
            cursor,
            events,
        ).1,
        drain(cursor, events.push(ev)).0 == step(drain(cursor, events).0, ev).0,
{
    assert(events.push(ev).drop_last() =~= events);
}

} // verus!
