//! The divider with several handles: one of a row of handles that share a
//! track, each with an extent of its own, the last of which may be left out.

use vstd::prelude::*;
use std::ops::RangeInclusive;
use crate::divider::{Catalog, Direction, Divider, DividerView, Outcome, Quad, Status};
use crate::event::{DragState, Event, EventStatus, Interaction};
use crate::geometry::{Cursor, Point, Rectangle};
use crate::handle::{HandleView, Turn};
use crate::layout::Length;
use crate::scale::clamp_value;
use crate::theme::Palette;

verus! {

/// The extent along the axis of a handle that was given none.
pub const DEFAULT_EXTENT: u32 = 4;

/// The extent across the axis of a handle that was given none.
pub const DEFAULT_CROSS_EXTENT: u32 = 21;

/// What a divider with several handles is, as plain data.
pub struct MultiDividerView<Message, F, Class> {
    /// The divider of the handle that is addressed.
    pub divider: DividerView<Message, F, Class>,
    /// How many handles share the track.
    pub handle_count: usize,
    /// The extents of the handles along the axis: one for all of them, or
    /// one for each.
    pub extents: Seq<u32>,
    /// The extent of every handle across the axis.
    pub cross_extent: u32,
    /// Whether the last handle takes part.
    pub include_last_handle: bool,
}

/// The extent along the axis that `extents` gives to handle `index`: the
/// only one where there is only one, else the one at `index`. A handle that
/// `extents` does not reach has none.
pub open spec fn extent_at(extents: Seq<u32>, index: usize) -> u32 {
    if extents.len() == 1 {
        extents[0]
    } else if index < extents.len() {
        extents[index as int]
    } else {
        0
    }
}

/// Whether handle `index` of `handle_count` takes part: it is one of them,
/// and not the last where the last is left out.
pub open spec fn takes_part(handle_count: usize, index: usize, include_last_handle: bool) -> bool {
    &&& index < handle_count
    &&& include_last_handle || index + 1 < handle_count
}

impl<Message, F: Fn((usize, i32)) -> Message, Class> MultiDividerView<Message, F, Class> {
    /// The handle that is addressed.
    pub open spec fn active_index(self) -> usize {
        self.divider.index
    }

    /// The extent along the axis of the handle that is addressed.
    pub open spec fn active_extent(self) -> u32 {
        extent_at(self.extents, self.divider.index)
    }

    /// Whether the handle that is addressed takes part.
    pub open spec fn active(self) -> bool {
        takes_part(self.handle_count, self.divider.index, self.include_last_handle)
    }

    /// There is one extent for all handles or one for each, and the handle
    /// that is addressed has its own extent along the axis and the common
    /// extent across.
    pub open spec fn wf(self) -> bool {
        &&& self.divider.wf()
        &&& self.extents.len() == 1 || self.extents.len() == self.handle_count
        &&& match self.divider.handle.direction {
            Direction::Horizontal => {
                &&& self.divider.handle.width == self.active_extent()
                &&& self.divider.handle.height == self.cross_extent
            },
            Direction::Vertical => {
                &&& self.divider.handle.width == self.cross_extent
                &&& self.divider.handle.height == self.active_extent()
            },
        }
    }

    /// The same divider with another handle.
    pub open spec fn holding(self, handle: HandleView) -> Self {
        MultiDividerView { divider: self.divider.holding(handle), ..self }
    }

    /// The handle with the size that `direction`, `extents` and
    /// `cross_extent` give it.
    pub open spec fn sized(
        self,
        direction: Direction,
        extents: Seq<u32>,
        cross_extent: u32,
    ) -> HandleView {
        match direction {
            Direction::Horizontal => HandleView {
                direction,
                width: extent_at(extents, self.divider.index),
                height: cross_extent,
                ..self.divider.handle
            },
            Direction::Vertical => HandleView {
                direction,
                width: cross_extent,
                height: extent_at(extents, self.divider.index),
                ..self.divider.handle
            },
        }
    }

    /// What `event` does to the handle that is addressed.
    ///
    /// A handle that does not take part lets every event pass. So does a
    /// handle that is pressed while a drag is under way: one drag at a time.
    /// Everything else goes by the rules of a single handle.
    pub open spec fn react(
        self,
        state: DragState,
        event: Event,
        bounds: Rectangle,
        cursor: Cursor,
    ) -> Turn {
        if !self.active() || (event == Event::PointerDown && state == DragState::Dragging) {
            self.divider.handle.pass(state)
        } else {
            self.divider.handle.react(state, event, bounds, cursor)
        }
    }

    /// How the divider presents itself. A handle that does not take part is
    /// neither hovered nor dragged.
    pub open spec fn status(self, state: DragState, bounds: Rectangle, cursor: Cursor) -> Status {
        if self.active() {
            self.divider.handle.status(state, bounds, cursor)
        } else {
            Status::Active
        }
    }

    /// The pointer shape that the divider asks for. A handle that does not
    /// take part asks for none.
    pub open spec fn interaction(
        self,
        state: DragState,
        bounds: Rectangle,
        cursor: Cursor,
    ) -> Interaction {
        if self.active() {
            self.divider.handle.interaction(state, bounds, cursor)
        } else {
            Interaction::Unspecified
        }
    }
}

/// One of several handles on a track.
#[verifier::reject_recursive_types(Message)]
#[verifier::reject_recursive_types(F)]
#[verifier::reject_recursive_types(Theme)]
pub struct MultiDivider<Message, F: Fn((usize, i32)) -> Message, Theme: Catalog = Palette> {
    divider: Divider<Message, F, Theme>,
    handle_count: usize,
    extents: Vec<u32>,
    cross_extent: u32,
    include_last_handle: bool,
}

impl<Message, F: Fn((usize, i32)) -> Message, Theme: Catalog> View for MultiDivider<
    Message,
    F,
    Theme,
> {
    type V = MultiDividerView<Message, F, Theme::Class>;

    closed spec fn view(&self) -> Self::V {
        MultiDividerView {
            divider: self.divider@,
            handle_count: self.handle_count,
            extents: self.extents@,
            cross_extent: self.cross_extent,
            include_last_handle: self.include_last_handle,
        }
    }
}

/// The extent along the axis that `extents` gives to handle `index`.
fn extent_of(extents: &Vec<u32>, index: usize) -> (extent: u32)
    ensures
        extent == extent_at(extents@, index),
{
    if extents.len() == 1 {
        extents[0]
    } else if index < extents.len() {
        extents[index]
    } else {
        0
    }
}

impl<Message, F: Fn((usize, i32)) -> Message, Theme: Catalog> MultiDivider<Message, F, Theme> {
    /// Handle `index` of `handle_count` handles, at `value`, forced into
    /// `range`. `on_change` makes the message for each new value, from
    /// `index` and the value. All handles have the default extents, the last
    /// handle takes part, and the rest is as for a divider with one handle.
    pub fn new(
        handle_count: usize,
        index: usize,
        value: i32,
        range: RangeInclusive<i32>,
        on_change: F,
    ) -> (multi: Self)
        requires
            forall|value: i32| call_requires(on_change, ((index, value),)),
        ensures
            multi@.wf(),
            multi@.handle_count == handle_count,
            multi@.extents == seq![DEFAULT_EXTENT],
            multi@.cross_extent == DEFAULT_CROSS_EXTENT,
            multi@.include_last_handle,
            multi@.divider.index == index,
            multi@.divider.handle.value == clamp_value(
                value as int,
                range@.start as int,
                range@.end as int,
            ),
            multi@.divider.handle.start == range@.start,
            multi@.divider.handle.end == range@.end,
            multi@.divider.handle.step == 1,
            multi@.divider.handle.direction == Direction::Horizontal,
            multi@.divider.on_change == on_change,
            multi@.divider.on_release is None,
            multi@.divider.width == Length::Fill,
            multi@.divider.height == Length::Fill,
            multi@.divider.class == Theme::default_class(),
    {
        let mut extents: Vec<u32> = Vec::new();
        extents.push(DEFAULT_EXTENT);
        MultiDivider {
            divider: Divider::new(
                index,
                value,
                range,
                DEFAULT_EXTENT,
                DEFAULT_CROSS_EXTENT,
                on_change,
            ),
            handle_count,
            extents,
            cross_extent: DEFAULT_CROSS_EXTENT,
            include_last_handle: true,
        }
    }

    /// Gives the handle the size that the axis and the extents ask for.
    fn resized(self) -> (multi: Self)
        ensures
            multi@ == self@.holding(
                self@.sized(self@.divider.handle.direction, self@.extents, self@.cross_extent),
            ),
    {
        let MultiDivider { divider, handle_count, extents, cross_extent, include_last_handle } =
            self;
        let extent: u32 = extent_of(&extents, divider.index());
        let divider = match divider.handle().direction() {
            Direction::Horizontal => divider.handle_size(extent, cross_extent),
            Direction::Vertical => divider.handle_size(cross_extent, extent),
        };
        MultiDivider { divider, handle_count, extents, cross_extent, include_last_handle }
    }

    /// Sets the extents of the handles along the axis: one for all of them,
    /// or one for each. Any other number of extents changes nothing.
    pub fn handle_extents(self, extents: Vec<u32>) -> (multi: Self)
        ensures
            self@.wf() ==> multi@.wf(),
            multi@ == (if extents@.len() == 1 || extents@.len() == self@.handle_count {
                MultiDividerView { extents: extents@, ..self@ }.holding(
                    self@.sized(self@.divider.handle.direction, extents@, self@.cross_extent),
                )
            } else {
                self@
            }),
    {
        if extents.len() == 1 || extents.len() == self.handle_count {
            let mut multi = self;
            multi.extents = extents;
            multi.resized()
        } else {
            self
        }
    }

    /// Sets the extent of every handle across the axis.
    pub fn handle_cross_extent(self, cross_extent: u32) -> (multi: Self)
        ensures
            self@.wf() ==> multi@.wf(),
            multi@ == (MultiDividerView { cross_extent, ..self@ }).holding(
                self@.sized(self@.divider.handle.direction, self@.extents, cross_extent),
            ),
    {
        let mut multi = self;
        multi.cross_extent = cross_extent;
        multi.resized()
    }

    /// Says whether the last handle takes part.
    pub fn include_last_handle(self, include_last_handle: bool) -> (multi: Self)
        ensures
            self@.wf() ==> multi@.wf(),
            multi@ == (MultiDividerView { include_last_handle, ..self@ }),
    {
        let mut multi = self;
        multi.include_last_handle = include_last_handle;
        multi
    }

    /// Sets the axis along which the handles move. The extents of the handle
    /// turn with it.
    pub fn direction(self, direction: Direction) -> (multi: Self)
        ensures
            self@.wf() ==> multi@.wf(),
            multi@ == self@.holding(self@.sized(direction, self@.extents, self@.cross_extent)),
    {
        let MultiDivider { divider, handle_count, extents, cross_extent, include_last_handle } =
            self;
        let multi = MultiDivider {
            divider: divider.direction(direction),
            handle_count,
            extents,
            cross_extent,
            include_last_handle,
        };
        multi.resized()
    }

    /// Sets the step. A step that is not positive is replaced by 1, the
    /// smallest positive step.
    pub fn step(self, step: i32) -> (multi: Self)
        ensures
            self@.wf() ==> multi@.wf(),
            multi@ == self@.holding(
                HandleView { step: if step >= 1 { step } else { 1 }, ..self@.divider.handle },
            ),
    {
        let MultiDivider { divider, handle_count, extents, cross_extent, include_last_handle } =
            self;
        MultiDivider {
            divider: divider.step(step),
            handle_count,
            extents,
            cross_extent,
            include_last_handle,
        }
    }

    /// Sets the message that the end of a drag sends.
    pub fn on_release(self, on_release: Message) -> (multi: Self)
        ensures
            self@.wf() ==> multi@.wf(),
            multi@ == (MultiDividerView {
                divider: DividerView { on_release: Some(on_release), ..self@.divider },
                ..self@
            }),
    {
        let MultiDivider { divider, handle_count, extents, cross_extent, include_last_handle } =
            self;
        MultiDivider {
            divider: divider.on_release(on_release),
            handle_count,
            extents,
            cross_extent,
            include_last_handle,
        }
    }

    /// Sets the width that the divider asks for.
    pub fn width(self, width: Length) -> (multi: Self)
        ensures
            self@.wf() ==> multi@.wf(),
            multi@ == (MultiDividerView {
                divider: DividerView { width, ..self@.divider },
                ..self@
            }),
    {
        let MultiDivider { divider, handle_count, extents, cross_extent, include_last_handle } =
            self;
        MultiDivider {
            divider: divider.width(width),
            handle_count,
            extents,
            cross_extent,
            include_last_handle,
        }
    }

    /// Sets the height that the divider asks for.
    pub fn height(self, height: Length) -> (multi: Self)
        ensures
            self@.wf() ==> multi@.wf(),
            multi@ == (MultiDividerView {
                divider: DividerView { height, ..self@.divider },
                ..self@
            }),
    {
        let MultiDivider { divider, handle_count, extents, cross_extent, include_last_handle } =
            self;
        MultiDivider {
            divider: divider.height(height),
            handle_count,
            extents,
            cross_extent,
            include_last_handle,
        }
    }

    /// Sets the style that the divider picks from its theme.
    pub fn class(self, class: Theme::Class) -> (multi: Self)
        ensures
            self@.wf() ==> multi@.wf(),
            multi@ == (MultiDividerView {
                divider: DividerView { class, ..self@.divider },
                ..self@
            }),
    {
        let MultiDivider { divider, handle_count, extents, cross_extent, include_last_handle } =
            self;
        MultiDivider {
            divider: divider.class(class),
            handle_count,
            extents,
            cross_extent,
            include_last_handle,
        }
    }

    /// How many handles share the track.
    pub fn handle_count(&self) -> (count: usize)
        ensures
            count == self@.handle_count,
    {
        self.handle_count
    }

    /// The handle that is addressed.
    pub fn active_index(&self) -> (index: usize)
        ensures
            index == self@.active_index(),
    {
        self.divider.index()
    }

    /// The extent along the axis of the handle that is addressed.
    pub fn active_extent(&self) -> (extent: u32)
        ensures
            extent == self@.active_extent(),
    {
        extent_of(&self.extents, self.divider.index())
    }

    /// Whether the handle that is addressed takes part.
    pub fn is_active(&self) -> (active: bool)
        ensures
            active == self@.active(),
    {
        let index: usize = self.divider.index();
        index < self.handle_count && (self.include_last_handle || index < self.handle_count - 1)
    }

    /// The value that the handle stands for.
    pub fn value(&self) -> (value: i32)
        ensures
            value == self@.divider.handle.value,
            self@.divider.handle.start <= self@.divider.handle.end ==> self@.divider.handle.start
                <= value <= self@.divider.handle.end,
    {
        self.divider.value()
    }

    /// The divider of the handle that is addressed.
    pub fn divider(&self) -> (divider: &Divider<Message, F, Theme>)
        ensures
            divider@ == self@.divider,
            divider.wf(),
    {
        proof {
            use_type_invariant(&self.divider);
        }
        &self.divider
    }

    /// Maps the position of the pointer to the value that it asks for.
    pub fn locate(&self, bounds: Rectangle, position: Point) -> (value: i32)
        ensures
            value == self@.divider.handle.located(bounds, position),
    {
        self.divider.locate(bounds, position)
    }

    /// How the divider presents itself.
    pub fn status(&self, state: DragState, bounds: Rectangle, cursor: Cursor) -> (status: Status)
        ensures
            status == self@.status(state, bounds, cursor),
    {
        if self.is_active() {
            self.divider.handle().status(state, bounds, cursor)
        } else {
            Status::Active
        }
    }

    /// The pointer shape that the divider asks for.
    pub fn mouse_interaction(&self, state: DragState, bounds: Rectangle, cursor: Cursor) -> (hint:
        Interaction)
        ensures
            hint == self@.interaction(state, bounds, cursor),
    {
        if self.is_active() {
            self.divider.mouse_interaction(state, bounds, cursor)
        } else {
            Interaction::Unspecified
        }
    }

    /// What is drawn for the divider: nothing for a handle that does not
    /// take part, else what is drawn for a divider with one handle.
    pub fn draw(&self, state: DragState, theme: &Theme, bounds: Rectangle, cursor: Cursor) -> (quad:
        Option<Quad>)
        requires
            bounds.is_bounded(),
        ensures
            quad is Some <==> self@.active(),
            quad is Some ==> {
                &&& self@.divider.handle.drawn_at(bounds, quad->0.bounds)
                &&& quad->0.style == theme.resolved(
                    &self@.divider.class,
                    self@.status(state, bounds, cursor),
                )
            },
    {
        if self.is_active() {
            Some(self.divider.draw(state, theme, bounds, cursor))
        } else {
            None
        }
    }
}

impl<Message: Clone, F: Fn((usize, i32)) -> Message, Theme: Catalog> MultiDivider<
    Message,
    F,
    Theme,
> {
    /// Takes one event for the handle that is addressed, and answers with
    /// the message to publish.
    pub fn on_event(
        &mut self,
        state: &mut DragState,
        event: Event,
        bounds: Rectangle,
        cursor: Cursor,
    ) -> (outcome: Outcome<Message>)
        ensures
            final(self)@ == old(self)@.holding(
                old(self)@.react(*old(state), event, bounds, cursor).handle,
            ),
            *final(state) == old(self)@.react(*old(state), event, bounds, cursor).state,
            outcome.status == old(self)@.react(*old(state), event, bounds, cursor).reaction.status,
            old(self)@.divider.sends(
                old(self)@.react(*old(state), event, bounds, cursor).reaction.notice,
                outcome.message,
            ),
            outcome.message is Some <==> old(self)@.divider.publishes(
                old(self)@.react(*old(state), event, bounds, cursor).reaction.notice,
            ),
            old(self)@.wf() ==> final(self)@.wf(),
    {
        let pressed: bool = match event {
            Event::PointerDown => true,
            _ => false,
        };
        if !self.is_active() || (pressed && state.is_dragging()) {
            return Outcome { status: EventStatus::Ignored, message: None };
        }
        let outcome: Outcome<Message> = self.divider.on_event(state, event, bounds, cursor);
        proof {
            use_type_invariant(&self.divider);
        }
        outcome
    }
}

} // verus!
