//! One handle on its track: the value it stands for, the range and step of
//! that value, the axis it moves along and its size, together with the rules
//! by which the pointer moves it.

use vstd::prelude::*;
use std::ops::RangeInclusive;
use crate::divider::{Direction, Status};
use crate::event::{DragState, Event, EventStatus, Interaction, Notice, Reaction};
use crate::geometry::{Cursor, Point, Rectangle};
use crate::scale::{
    clamp,
    clamp_value,
    lemma_locate_in_range,
    locate,
    locate_value,
    offset,
    offset_value,
    positive_step,
};

verus! {

/// `RangeInclusive::start` of std: it hands out the lower bound that the
/// range holds.
pub assume_specification<Idx>[ RangeInclusive::<Idx>::start ](
    range: &RangeInclusive<Idx>,
) -> (start: &Idx)
    ensures
        *start == range@.start,
;

/// `RangeInclusive::end` of std: it hands out the upper bound that the range
/// holds.
pub assume_specification<Idx>[ RangeInclusive::<Idx>::end ](
    range: &RangeInclusive<Idx>,
) -> (end: &Idx)
    ensures
        *end == range@.end,
;

/// What a handle is, as plain data.
pub struct HandleView {
    /// The value that the handle stands for.
    pub value: i32,
    /// The least value of the range.
    pub start: i32,
    /// The greatest value of the range.
    pub end: i32,
    /// The distance between two values that the pointer can choose.
    pub step: i32,
    /// The axis along which the handle moves.
    pub direction: Direction,
    /// The size of the handle from left to right.
    pub width: u32,
    /// The size of the handle from top to bottom.
    pub height: u32,
}

/// What one event does to a handle.
pub struct Turn {
    /// The handle after the event.
    pub handle: HandleView,
    /// The drag state after the event.
    pub state: DragState,
    /// What the handle answers.
    pub reaction: Reaction,
}

impl HandleView {
    /// The step can divide, and the value is a value of the range wherever
    /// the range holds any.
    pub open spec fn wf(self) -> bool {
        &&& self.step >= 1
        &&& self.start <= self.end ==> self.start <= self.value <= self.end
    }

    /// The same handle at another value.
    pub open spec fn at(self, value: i32) -> HandleView {
        HandleView { value, ..self }
    }

    /// The value that a pointer at `position` asks for, on the track that
    /// `bounds` spans along the axis.
    pub open spec fn located(self, bounds: Rectangle, position: Point) -> i32 {
        locate_value(
            self.start as int,
            self.end as int,
            self.step as int,
            self.direction.origin_spec(bounds) as int,
            self.direction.extent_spec(bounds) as int,
            self.direction.coordinate_spec(position) as int,
        ) as i32
    }

    /// Whether the rectangle of the handle holds `point`. The rectangle
    /// starts at the near corner of `bounds`, moved along the axis by the
    /// value, and has the size of the handle.
    pub open spec fn covers(self, bounds: Rectangle, point: Point) -> bool {
        let near_x: int = match self.direction {
            Direction::Horizontal => bounds.x + self.value,
            Direction::Vertical => bounds.x as int,
        };
        let near_y: int = match self.direction {
            Direction::Horizontal => bounds.y as int,
            Direction::Vertical => bounds.y + self.value,
        };
        &&& near_x <= point.x < near_x + self.width
        &&& near_y <= point.y < near_y + self.height
    }

    /// Whether the pointer is over the rectangle of the handle.
    pub open spec fn under(self, bounds: Rectangle, cursor: Cursor) -> bool {
        match cursor {
            Cursor::Available(position) => self.covers(bounds, position),
            Cursor::Unavailable => false,
        }
    }

    /// How far from the near edge of the track the handle is drawn.
    pub open spec fn offset(self, bounds: Rectangle) -> int {
        offset_value(
            self.value as int,
            self.start as int,
            self.end as int,
            self.direction.extent_spec(bounds) as int,
        )
    }

    /// The event is not for the handle: nothing changes.
    pub open spec fn pass(self, state: DragState) -> Turn {
        Turn {
            handle: self,
            state,
            reaction: Reaction { status: EventStatus::Ignored, notice: Notice::Quiet },
        }
    }

    /// The handle goes where the pointer at `position` asks and is dragged
    /// from now on. It reports the new value if that is another one.
    pub open spec fn follow(self, bounds: Rectangle, position: Point) -> Turn {
        let target: i32 = self.located(bounds, position);
        Turn {
            handle: self.at(target),
            state: DragState::Dragging,
            reaction: Reaction {
                status: EventStatus::Captured,
                notice: if target != self.value {
                    Notice::Changed(target)
                } else {
                    Notice::Quiet
                },
            },
        }
    }

    /// What `event` does to the handle in drag state `state`, with the
    /// pointer at `cursor` and the track spanning `bounds`.
    ///
    /// A press over the handle starts a drag and moves the handle to the
    /// pointer. While a drag is under way, a move takes the handle along, and
    /// a release or the loss of the pointer ends the drag. Everything else
    /// passes by.
    pub open spec fn react(
        self,
        state: DragState,
        event: Event,
        bounds: Rectangle,
        cursor: Cursor,
    ) -> Turn {
        match event {
            Event::PointerDown => match cursor {
                Cursor::Available(position) => if self.covers(bounds, position) {
                    self.follow(bounds, position)
                } else {
                    self.pass(state)
                },
                Cursor::Unavailable => self.pass(state),
            },
            Event::PointerMove => match state {
                DragState::Dragging => match cursor {
                    Cursor::Available(position) => self.follow(bounds, position),
                    Cursor::Unavailable => Turn {
                        handle: self,
                        state,
                        reaction: Reaction {
                            status: EventStatus::Captured,
                            notice: Notice::Quiet,
                        },
                    },
                },
                DragState::Idle => self.pass(state),
            },
            Event::PointerUp | Event::PointerLost => match state {
                DragState::Dragging => Turn {
                    handle: self,
                    state: DragState::Idle,
                    reaction: Reaction {
                        status: EventStatus::Captured,
                        notice: Notice::Released,
                    },
                },
                DragState::Idle => self.pass(state),
            },
        }
    }

    /// How the divider presents itself: dragged before hovered, hovered
    /// before active. It is hovered when the pointer is over `bounds`.
    pub open spec fn status(self, state: DragState, bounds: Rectangle, cursor: Cursor) -> Status {
        if state == DragState::Dragging {
            Status::Dragged
        } else if cursor.is_over_spec(bounds) {
            Status::Hovered
        } else {
            Status::Active
        }
    }

    /// The pointer shape that the handle asks for: that of its axis while it
    /// is dragged or the pointer is over its rectangle.
    pub open spec fn interaction(
        self,
        state: DragState,
        bounds: Rectangle,
        cursor: Cursor,
    ) -> Interaction {
        if state == DragState::Dragging || self.under(bounds, cursor) {
            match self.direction {
                Direction::Horizontal => Interaction::ResizingHorizontally,
                Direction::Vertical => Interaction::ResizingVertically,
            }
        } else {
            Interaction::Unspecified
        }
    }

    /// The rectangle that is drawn for the handle: the near corner of
    /// `bounds`, moved along the axis by the offset, with the size of the
    /// handle.
    pub open spec fn drawn_at(self, bounds: Rectangle, quad: Rectangle) -> bool {
        &&& quad.width == self.width
        &&& quad.height == self.height
        &&& match self.direction {
            Direction::Horizontal => quad.x == bounds.x + self.offset(bounds) && quad.y
                == bounds.y,
            Direction::Vertical => quad.x == bounds.x && quad.y == bounds.y + self.offset(
                bounds,
            ),
        }
    }

    /// The located value is the value of the mapping, with nothing cut off.
    pub proof fn lemma_located_exact(self, bounds: Rectangle, position: Point)
        requires
            self.step >= 1,
        ensures
            self.located(bounds, position) == locate_value(
                self.start as int,
                self.end as int,
                self.step as int,
                self.direction.origin_spec(bounds) as int,
                self.direction.extent_spec(bounds) as int,
                self.direction.coordinate_spec(position) as int,
            ),
            self.start <= self.end ==> self.start <= self.located(bounds, position) <= self.end,
    {
        lemma_locate_in_range(
            self.start as int,
            self.end as int,
            self.step as int,
            self.direction.origin_spec(bounds) as int,
            self.direction.extent_spec(bounds) as int,
            self.direction.coordinate_spec(position) as int,
        );
    }
}

/// A handle on its track.
#[derive(Debug, Clone, Copy)]
pub struct Handle {
    value: i32,
    start: i32,
    end: i32,
    step: i32,
    direction: Direction,
    width: u32,
    height: u32,
}

impl View for Handle {
    type V = HandleView;

    closed spec fn view(&self) -> HandleView {
        HandleView {
            value: self.value,
            start: self.start,
            end: self.end,
            step: self.step,
            direction: self.direction,
            width: self.width,
            height: self.height,
        }
    }
}

impl Handle {
    /// What holds of every handle.
    #[verifier::type_invariant]
    pub open spec fn wf(self) -> bool {
        self@.wf()
    }

    /// A handle of the given size at `value`, forced into `range`. Its step
    /// is 1 and it moves left and right.
    pub fn new(value: i32, range: RangeInclusive<i32>, width: u32, height: u32) -> (handle: Handle)
        ensures
            handle.wf(),
            handle@.value == clamp_value(value as int, range@.start as int, range@.end as int),
            handle@.start == range@.start,
            handle@.end == range@.end,
            handle@.step == 1,
            handle@.direction == Direction::Horizontal,
            handle@.width == width,
            handle@.height == height,
    {
        let start: i32 = *range.start();
        let end: i32 = *range.end();
        Handle {
            value: clamp(value, start, end),
            start,
            end,
            step: 1,
            direction: Direction::Horizontal,
            width,
            height,
        }
    }

    /// The handle with another step. A step that is not positive is replaced
    /// by 1, the smallest positive step.
    pub fn with_step(self, step: i32) -> (handle: Handle)
        ensures
            handle.wf(),
            handle@ == (HandleView { step: if step >= 1 { step } else { 1 }, ..self@ }),
    {
        proof {
            use_type_invariant(&self);
        }
        let mut handle = self;
        handle.step = positive_step(step);
        handle
    }

    /// The handle on another axis.
    pub fn with_direction(self, direction: Direction) -> (handle: Handle)
        ensures
            handle.wf(),
            handle@ == (HandleView { direction, ..self@ }),
    {
        proof {
            use_type_invariant(&self);
        }
        let mut handle = self;
        handle.direction = direction;
        handle
    }

    /// The handle with another size.
    pub fn with_size(self, width: u32, height: u32) -> (handle: Handle)
        ensures
            handle.wf(),
            handle@ == (HandleView { width, height, ..self@ }),
    {
        proof {
            use_type_invariant(&self);
        }
        let mut handle = self;
        handle.width = width;
        handle.height = height;
        handle
    }

    /// The value that the handle stands for.
    pub fn value(&self) -> (value: i32)
        ensures
            value == self@.value,
            self@.start <= self@.end ==> self@.start <= value <= self@.end,
    {
        proof {
            use_type_invariant(self);
        }
        self.value
    }

    /// The least value of the range.
    pub fn start(&self) -> (start: i32)
        ensures
            start == self@.start,
    {
        self.start
    }

    /// The greatest value of the range.
    pub fn end(&self) -> (end: i32)
        ensures
            end == self@.end,
    {
        self.end
    }

    /// The step, which is positive.
    pub fn step(&self) -> (step: i32)
        ensures
            step == self@.step,
            step >= 1,
    {
        proof {
            use_type_invariant(self);
        }
        self.step
    }

    /// The axis along which the handle moves.
    pub fn direction(&self) -> (direction: Direction)
        ensures
            direction == self@.direction,
    {
        self.direction
    }

    /// The size of the handle from left to right.
    pub fn width(&self) -> (width: u32)
        ensures
            width == self@.width,
    {
        self.width
    }

    /// The size of the handle from top to bottom.
    pub fn height(&self) -> (height: u32)
        ensures
            height == self@.height,
    {
        self.height
    }

    /// Maps the position of the pointer to the value that it asks for.
    pub fn locate(&self, bounds: Rectangle, position: Point) -> (value: i32)
        ensures
            value == self@.located(bounds, position),
            self@.start <= self@.end ==> self@.start <= value <= self@.end,
    {
        proof {
            use_type_invariant(self);
            self@.lemma_located_exact(bounds, position);
        }
        locate(
            self.start,
            self.end,
            self.step,
            self.direction.origin(bounds),
            self.direction.extent(bounds),
            self.direction.coordinate(position),
        )
    }

    /// Whether the rectangle of the handle holds `point`.
    pub fn covers(&self, bounds: Rectangle, point: Point) -> (inside: bool)
        ensures
            inside == self@.covers(bounds, point),
    {
        let along: i64 = self.value as i64;
        let (near_x, near_y): (i64, i64) = match self.direction {
            Direction::Horizontal => (bounds.x as i64 + along, bounds.y as i64),
            Direction::Vertical => (bounds.x as i64, bounds.y as i64 + along),
        };
        near_x <= point.x as i64 && (point.x as i64) < near_x + self.width as i64 && near_y
            <= point.y as i64 && (point.y as i64) < near_y + self.height as i64
    }

    /// Whether the pointer is over the rectangle of the handle.
    pub fn is_under(&self, bounds: Rectangle, cursor: Cursor) -> (over: bool)
        ensures
            over == self@.under(bounds, cursor),
    {
        match cursor {
            Cursor::Available(position) => self.covers(bounds, position),
            Cursor::Unavailable => false,
        }
    }

    /// How far from the near edge of the track the handle is drawn.
    pub fn offset(&self, bounds: Rectangle) -> (off: u32)
        ensures
            off == self@.offset(bounds),
            off <= self@.direction.extent_spec(bounds),
    {
        proof {
            use_type_invariant(self);
        }
        offset(self.value, self.start, self.end, self.direction.extent(bounds))
    }

    /// The rectangle that is drawn for the handle.
    pub fn quad(&self, bounds: Rectangle) -> (quad: Rectangle)
        requires
            bounds.is_bounded(),
        ensures
            self@.drawn_at(bounds, quad),
    {
        let off: u32 = self.offset(bounds);
        match self.direction {
            Direction::Horizontal => Rectangle {
                x: (bounds.x as i64 + off as i64) as i32,
                y: bounds.y,
                width: self.width,
                height: self.height,
            },
            Direction::Vertical => Rectangle {
                x: bounds.x,
                y: (bounds.y as i64 + off as i64) as i32,
                width: self.width,
                height: self.height,
            },
        }
    }

    /// How the divider presents itself.
    pub fn status(&self, state: DragState, bounds: Rectangle, cursor: Cursor) -> (status: Status)
        ensures
            status == self@.status(state, bounds, cursor),
    {
        if state.is_dragging() {
            Status::Dragged
        } else if cursor.is_over(bounds) {
            Status::Hovered
        } else {
            Status::Active
        }
    }

    /// The pointer shape that the handle asks for.
    pub fn mouse_interaction(&self, state: DragState, bounds: Rectangle, cursor: Cursor) -> (hint:
        Interaction)
        ensures
            hint == self@.interaction(state, bounds, cursor),
    {
        if state.is_dragging() || self.is_under(bounds, cursor) {
            match self.direction {
                Direction::Horizontal => Interaction::ResizingHorizontally,
                Direction::Vertical => Interaction::ResizingVertically,
            }
        } else {
            Interaction::Unspecified
        }
    }

    /// Moves the handle to where the pointer at `position` asks, and says
    /// whether that is another value.
    fn follow(&mut self, bounds: Rectangle, position: Point) -> (notice: Notice)
        ensures
            final(self)@ == old(self)@.follow(bounds, position).handle,
            notice == old(self)@.follow(bounds, position).reaction.notice,
    {
        proof {
            use_type_invariant(&*self);
        }
        let target: i32 = self.locate(bounds, position);
        if target != self.value {
            self.value = target;
            Notice::Changed(target)
        } else {
            Notice::Quiet
        }
    }

    /// Takes one event: moves the handle and the drag state as the event
    /// asks, and answers what happened.
    pub fn on_event(
        &mut self,
        state: &mut DragState,
        event: Event,
        bounds: Rectangle,
        cursor: Cursor,
    ) -> (reaction: Reaction)
        ensures
            final(self)@ == old(self)@.react(*old(state), event, bounds, cursor).handle,
            *final(state) == old(self)@.react(*old(state), event, bounds, cursor).state,
            reaction == old(self)@.react(*old(state), event, bounds, cursor).reaction,
    {
        let dragging: bool = state.is_dragging();
        match event {
            Event::PointerDown => {
                if let Some(position) = cursor.position() {
                    if self.covers(bounds, position) {
                        let notice: Notice = self.follow(bounds, position);
                        *state = DragState::Dragging;
                        return Reaction { status: EventStatus::Captured, notice };
                    }
                }
            },
            Event::PointerUp | Event::PointerLost => {
                if dragging {
                    *state = DragState::Idle;
                    return Reaction {
                        status: EventStatus::Captured,
                        notice: Notice::Released,
                    };
                }
            },
            Event::PointerMove => {
                if dragging {
                    let notice: Notice = match cursor.position() {
                        Some(position) => self.follow(bounds, position),
                        None => Notice::Quiet,
                    };
                    return Reaction { status: EventStatus::Captured, notice };
                }
            },
        }
        Reaction { status: EventStatus::Ignored, notice: Notice::Quiet }
    }
}

} // verus!
