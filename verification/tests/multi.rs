use iced_divider::divider::{primary, Direction, Quad, Status};
use iced_divider::event::{DragState, Event, EventStatus, Interaction};
use iced_divider::geometry::{Cursor, Point, Rectangle};
use iced_divider::multi_divider::{MultiDivider, DEFAULT_CROSS_EXTENT, DEFAULT_EXTENT};
use iced_divider::theme::{Color, Palette};

#[derive(Debug, Clone, PartialEq)]
enum Note {
    Moved(usize, i32),
    Done,
}

const TRACK: Rectangle = Rectangle { x: 0, y: 0, width: 406, height: 21 };

const THEME: Palette = Palette {
    base: Color { r: 10, g: 20, b: 30, a: 255 },
    strong: Color { r: 40, g: 50, b: 60, a: 255 },
};

fn pointer(x: i32) -> Cursor {
    Cursor::Available(Point { x, y: 10 })
}

fn moved(change: (usize, i32)) -> Note {
    Note::Moved(change.0, change.1)
}

fn handle(index: usize, value: i32) -> MultiDivider<Note, fn((usize, i32)) -> Note> {
    MultiDivider::new(3, index, value, 0..=406, moved as fn((usize, i32)) -> Note)
        .include_last_handle(false)
        .on_release(Note::Done)
}

#[test]
fn new_multi_divider_has_the_defaults() {
    let made: MultiDivider<Note, _> = MultiDivider::new(4, 1, 500, 0..=406, moved);
    assert_eq!(DEFAULT_EXTENT, 4);
    assert_eq!(DEFAULT_CROSS_EXTENT, 21);
    assert_eq!(made.handle_count(), 4);
    assert_eq!(made.active_index(), 1);
    assert_eq!(made.active_extent(), 4);
    assert_eq!(made.value(), 406);
    assert!(made.is_active());
    assert_eq!(made.divider().handle().width(), 4);
    assert_eq!(made.divider().handle().height(), 21);
    assert_eq!(made.divider().handle().step(), 1);
    assert_eq!(made.divider().handle().direction(), Direction::Horizontal);
}

#[test]
fn last_handle_left_out_ignores_a_press_on_it() {
    let mut last = handle(2, 298);
    let mut state = DragState::Idle;
    assert!(!last.is_active());
    let outcome = last.on_event(&mut state, Event::PointerDown, TRACK, pointer(299));
    assert_eq!(outcome.status, EventStatus::Ignored);
    assert_eq!(outcome.message, None);
    assert_eq!(state, DragState::Idle);
    assert_eq!(last.value(), 298);
}

#[test]
fn handles_before_the_last_go_by_the_rules_of_one_handle() {
    for (index, value) in [(0, 98), (1, 198)] {
        let mut made = handle(index, value);
        let mut state = DragState::Idle;
        assert!(made.is_active());
        let press = made.on_event(&mut state, Event::PointerDown, TRACK, pointer(value + 1));
        assert_eq!(press.status, EventStatus::Captured);
        assert_eq!(press.message, Some(Note::Moved(index, value + 1)));
        assert_eq!(state, DragState::Dragging);
        let drag = made.on_event(&mut state, Event::PointerMove, TRACK, pointer(value + 30));
        assert_eq!(drag.status, EventStatus::Captured);
        assert_eq!(drag.message, Some(Note::Moved(index, value + 30)));
        let same = made.on_event(&mut state, Event::PointerMove, TRACK, pointer(value + 30));
        assert_eq!(same.status, EventStatus::Captured);
        assert_eq!(same.message, None);
        let release = made.on_event(&mut state, Event::PointerUp, TRACK, pointer(value + 30));
        assert_eq!(release.status, EventStatus::Captured);
        assert_eq!(release.message, Some(Note::Done));
        assert_eq!(state, DragState::Idle);
        assert_eq!(made.value(), value + 30);
    }
}

#[test]
fn last_handle_left_out_is_never_hovered_dragged_or_drawn() {
    let mut last = handle(2, 298);
    let mut state = DragState::Dragging;
    for event in [Event::PointerDown, Event::PointerMove, Event::PointerUp, Event::PointerLost] {
        let outcome = last.on_event(&mut state, event, TRACK, pointer(299));
        assert_eq!(outcome.status, EventStatus::Ignored);
        assert_eq!(outcome.message, None);
        assert_eq!(state, DragState::Dragging);
        assert_eq!(last.value(), 298);
    }
    assert_eq!(last.status(DragState::Dragging, TRACK, pointer(299)), Status::Active);
    assert_eq!(last.status(DragState::Idle, TRACK, pointer(299)), Status::Active);
    assert_eq!(
        last.mouse_interaction(DragState::Dragging, TRACK, pointer(299)),
        Interaction::Unspecified
    );
    assert_eq!(last.draw(DragState::Idle, &THEME, TRACK, pointer(299)), None);
}

#[test]
fn last_handle_takes_part_unless_left_out() {
    let mut last: MultiDivider<Note, _> = MultiDivider::new(3, 2, 298, 0..=406, moved);
    let mut state = DragState::Idle;
    assert!(last.is_active());
    let outcome = last.on_event(&mut state, Event::PointerDown, TRACK, pointer(300));
    assert_eq!(outcome.status, EventStatus::Captured);
    assert_eq!(outcome.message, Some(Note::Moved(2, 300)));
    assert_eq!(state, DragState::Dragging);
}

#[test]
fn handle_beyond_the_count_does_not_take_part() {
    let mut beyond: MultiDivider<Note, _> = MultiDivider::new(3, 3, 298, 0..=406, moved);
    let none: MultiDivider<Note, _> = MultiDivider::new(0, 0, 298, 0..=406, moved);
    let mut state = DragState::Idle;
    assert!(!beyond.is_active());
    assert!(!none.is_active());
    let outcome = beyond.on_event(&mut state, Event::PointerDown, TRACK, pointer(299));
    assert_eq!(outcome.status, EventStatus::Ignored);
    assert_eq!(state, DragState::Idle);
}

#[test]
fn only_handle_left_out_does_not_take_part() {
    let only: MultiDivider<Note, _> =
        MultiDivider::new(1, 0, 50, 0..=406, moved).include_last_handle(false);
    assert!(!only.is_active());
}

#[test]
fn press_during_a_drag_is_ignored() {
    let mut made = handle(1, 198);
    let mut state = DragState::Dragging;
    let outcome = made.on_event(&mut state, Event::PointerDown, TRACK, pointer(199));
    assert_eq!(outcome.status, EventStatus::Ignored);
    assert_eq!(outcome.message, None);
    assert_eq!(state, DragState::Dragging);
    assert_eq!(made.value(), 198);
}

#[test]
fn one_extent_is_for_all_handles() {
    for index in 0..3 {
        let made: MultiDivider<Note, _> =
            MultiDivider::new(3, index, 100, 0..=406, moved).handle_extents(vec![9]);
        assert_eq!(made.active_extent(), 9);
        assert_eq!(made.divider().handle().width(), 9);
        assert_eq!(made.divider().handle().height(), 21);
    }
}

#[test]
fn each_handle_has_its_own_extent() {
    for (index, extent) in [(0, 2), (1, 8), (2, 32)] {
        let mut made: MultiDivider<Note, _> =
            MultiDivider::new(3, index, 100, 0..=406, moved).handle_extents(vec![2, 8, 32]);
        assert_eq!(made.active_extent(), extent);
        assert_eq!(made.divider().handle().width(), extent);
        let mut state = DragState::Idle;
        let inside = 100 + extent as i32 - 1;
        let beside = made.on_event(&mut state, Event::PointerDown, TRACK, pointer(inside + 1));
        assert_eq!(beside.status, EventStatus::Ignored);
        let hit = made.on_event(&mut state, Event::PointerDown, TRACK, pointer(inside));
        assert_eq!(hit.status, EventStatus::Captured);
    }
}

#[test]
fn wrong_number_of_extents_changes_nothing() {
    let made: MultiDivider<Note, _> = MultiDivider::new(3, 1, 100, 0..=406, moved)
        .handle_extents(vec![2, 8, 32])
        .handle_extents(vec![5, 6])
        .handle_extents(vec![])
        .handle_extents(vec![1, 2, 3, 4]);
    assert_eq!(made.active_extent(), 8);
    assert_eq!(made.divider().handle().width(), 8);
}

#[test]
fn extents_turn_with_the_axis() {
    let made: MultiDivider<Note, _> = MultiDivider::new(3, 1, 100, 0..=406, moved)
        .handle_extents(vec![2, 8, 32])
        .handle_cross_extent(300)
        .direction(Direction::Vertical);
    assert_eq!(made.divider().handle().direction(), Direction::Vertical);
    assert_eq!(made.divider().handle().width(), 300);
    assert_eq!(made.divider().handle().height(), 8);
    let back = made.direction(Direction::Horizontal);
    assert_eq!(back.divider().handle().width(), 8);
    assert_eq!(back.divider().handle().height(), 300);
}

#[test]
fn step_of_a_multi_divider() {
    let made: MultiDivider<Note, _> =
        MultiDivider::new(3, 1, 100, 0..=400, moved).step(50);
    let track = Rectangle { x: 0, y: 0, width: 400, height: 21 };
    assert_eq!(made.locate(track, Point { x: 130, y: 0 }), 150);
    assert_eq!(made.locate(track, Point { x: 124, y: 0 }), 100);
    let guarded: MultiDivider<Note, _> =
        MultiDivider::new(3, 1, 100, 0..=400, moved).step(0);
    assert_eq!(guarded.divider().handle().step(), 1);
}

#[test]
fn multi_divider_draws_the_handle_that_takes_part() {
    let made = handle(1, 203);
    let quad = made.draw(DragState::Idle, &THEME, TRACK, Cursor::Unavailable);
    assert_eq!(
        quad,
        Some(Quad {
            bounds: Rectangle { x: 203, y: 0, width: 4, height: 21 },
            style: primary(&THEME, Status::Active),
        })
    );
    assert_eq!(made.status(DragState::Idle, TRACK, pointer(5)), Status::Hovered);
    assert_eq!(made.status(DragState::Dragging, TRACK, pointer(5)), Status::Dragged);
    assert_eq!(
        made.mouse_interaction(DragState::Idle, TRACK, pointer(204)),
        Interaction::ResizingHorizontally
    );
    assert_eq!(
        made.mouse_interaction(DragState::Idle, TRACK, pointer(5)),
        Interaction::Unspecified
    );
}
