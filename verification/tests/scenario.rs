use iced_divider::divider::{Divider, Outcome};
use iced_divider::event::{DragState, Event, EventStatus};
use iced_divider::geometry::{Cursor, Point, Rectangle};
use iced_divider::theme::Palette;

#[derive(Debug, Clone, PartialEq)]
enum Message {
    Changed(usize, i32),
    Released,
}

fn track() -> Rectangle {
    Rectangle { x: 0, y: 0, width: 400, height: 21 }
}

fn at(x: i32) -> Cursor {
    Cursor::Available(Point { x, y: 10 })
}

#[test]
fn drag_across_the_track_and_release() {
    let mut divider: Divider<Message, _, Palette> =
        Divider::new(7, 100, 0..=400, 4, 21, |(index, value)| Message::Changed(index, value))
            .step(1)
            .on_release(Message::Released);
    let mut state = DragState::default();

    let Outcome { status, message } =
        divider.on_event(&mut state, Event::PointerDown, track(), at(100));
    assert_eq!(status, EventStatus::Captured);
    assert_eq!(message, None);
    assert_eq!(state, DragState::Dragging);
    assert_eq!(divider.value(), 100);

    let Outcome { status, message } =
        divider.on_event(&mut state, Event::PointerMove, track(), at(150));
    assert_eq!(status, EventStatus::Captured);
    assert_eq!(message, Some(Message::Changed(7, 150)));
    assert_eq!(divider.value(), 150);

    let Outcome { status, message } =
        divider.on_event(&mut state, Event::PointerMove, track(), at(-10));
    assert_eq!(status, EventStatus::Captured);
    assert_eq!(message, Some(Message::Changed(7, 0)));
    assert_eq!(divider.value(), 0);

    let Outcome { status, message } =
        divider.on_event(&mut state, Event::PointerUp, track(), at(-10));
    assert_eq!(status, EventStatus::Captured);
    assert_eq!(message, Some(Message::Released));
    assert_eq!(state, DragState::Idle);

    let Outcome { status, message } =
        divider.on_event(&mut state, Event::PointerUp, track(), at(-10));
    assert_eq!(status, EventStatus::Ignored);
    assert_eq!(message, None);
    assert_eq!(state, DragState::Idle);
}
