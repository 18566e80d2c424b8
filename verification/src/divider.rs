//! The divider: a handle on a track, with the messages that it sends.

use vstd::prelude::*;
use std::ops::RangeInclusive;
use crate::event::{DragState, Event, EventStatus, Interaction, Notice, Reaction};
use crate::geometry::{Cursor, Point, Rectangle};
use crate::handle::{Handle, HandleView};
use crate::layout::{Length, Size};
use crate::scale::clamp_value;
use crate::theme::{Color, Palette};

verus! {

/// The axis along which a handle moves.
#[derive(Debug, Clone, Copy, PartialEq, Eq, Structural)]
pub enum Direction {
    /// The handle moves left and right.
    Horizontal,
    /// The handle moves up and down.
    Vertical,
}

impl Default for Direction {
    fn default() -> (direction: Direction)
        ensures
            direction == Direction::Horizontal,
    {
        Direction::Horizontal
    }
}

impl Direction {
    /// The coordinate of `point` on the axis.
    pub open spec fn coordinate_spec(self, point: Point) -> i32 {
        match self {
            Direction::Horizontal => point.x,
            Direction::Vertical => point.y,
        }
    }

    /// Where `bounds` starts on the axis.
    pub open spec fn origin_spec(self, bounds: Rectangle) -> i32 {
        match self {
            Direction::Horizontal => bounds.x,
            Direction::Vertical => bounds.y,
        }
    }

    /// How long `bounds` is on the axis.
    pub open spec fn extent_spec(self, bounds: Rectangle) -> u32 {
        match self {
            Direction::Horizontal => bounds.width,
            Direction::Vertical => bounds.height,
        }
    }

    /// The coordinate of `point` on the axis.
    pub fn coordinate(self, point: Point) -> (coord: i32)
        ensures
            coord == self.coordinate_spec(point),
    {
        match self {
            Direction::Horizontal => point.x,
            Direction::Vertical => point.y,
        }
    }

    /// Where `bounds` starts on the axis.
    pub fn origin(self, bounds: Rectangle) -> (origin: i32)
        ensures
            origin == self.origin_spec(bounds),
    {
        match self {
            Direction::Horizontal => bounds.x,
            Direction::Vertical => bounds.y,
        }
    }

    /// How long `bounds` is on the axis.
    pub fn extent(self, bounds: Rectangle) -> (extent: u32)
        ensures
            extent == self.extent_spec(bounds),
    {
        match self {
            Direction::Horizontal => bounds.width,
            Direction::Vertical => bounds.height,
        }
    }
}

/// How a divider presents itself.
#[derive(Debug, Clone, Copy, PartialEq, Eq, Structural)]
pub enum Status {
    /// The divider can be interacted with.
    Active,
    /// The pointer is over the divider.
    Hovered,
    /// The handle is being dragged.
    Dragged,
}

/// The appearance of a handle.
#[derive(Debug, Clone, Copy, PartialEq, Eq, Structural)]
pub struct Style {
    /// The color that fills the handle.
    pub background: Color,
    /// The width of the border of the handle.
    pub border_width: u32,
    /// The color of the border of the handle.
    pub border_color: Color,
    /// The radius of the corners of the handle.
    pub border_radius: u32,
}

/// A theme that knows how to style a divider.
pub trait Catalog: Sized {
    /// What a divider names to pick one of the styles of the theme.
    type Class;

    /// The style that the theme gives to `class` in `status`.
    spec fn resolved(&self, class: &Self::Class, status: Status) -> Style;

    /// The class of a divider that names none.
    spec fn default_class() -> Self::Class;

    /// The class of a divider that names none.
    fn default() -> (class: Self::Class)
        ensures
            class == Self::default_class(),
    ;

    /// The style of `class` in `status`.
    fn style(&self, class: &Self::Class, status: Status) -> (style: Style)
        ensures
            style == self.resolved(class, status),
    ;
}

/// The styles that a palette offers.
#[derive(Debug, Clone, Copy, PartialEq, Eq, Structural)]
pub enum Appearance {
    /// A fill in the primary color, see [`primary`].
    Primary,
    /// No fill at all, see [`transparent`].
    Transparent,
}

/// The style that [`primary`] gives: a fill in the primary color, at its
/// strongest unless the pointer hovers, and no border.
pub open spec fn primary_spec(theme: Palette, status: Status) -> Style {
    Style {
        background: match status {
            Status::Active => theme.strong,
            Status::Hovered => theme.base,
            Status::Dragged => theme.strong,
        },
        border_width: 0,
        border_color: Color::transparent_spec(),
        border_radius: 0,
    }
}

/// The style that [`transparent`] gives: that of [`primary`] without its
/// fill.
pub open spec fn transparent_spec(theme: Palette, status: Status) -> Style {
    Style { background: Color::transparent_spec(), ..primary_spec(theme, status) }
}

/// The default style of a divider.
pub fn primary(theme: &Palette, status: Status) -> (style: Style)
    ensures
        style == primary_spec(*theme, status),
{
    let color: Color = match status {
        Status::Active => theme.strong,
        Status::Hovered => theme.base,
        Status::Dragged => theme.strong,
    };
    Style {
        background: color,
        border_width: 0,
        border_color: Color::transparent(),
        border_radius: 0,
    }
}

/// The style of a divider that is not to be seen.
pub fn transparent(theme: &Palette, status: Status) -> (style: Style)
    ensures
        style == transparent_spec(*theme, status),
{
    let mut style: Style = primary(theme, status);
    style.background = Color::transparent();
    style
}

impl Catalog for Palette {
    type Class = Appearance;

    open spec fn resolved(&self, class: &Appearance, status: Status) -> Style {
        match *class {
            Appearance::Primary => primary_spec(*self, status),
            Appearance::Transparent => transparent_spec(*self, status),
        }
    }

    open spec fn default_class() -> Appearance {
        Appearance::Primary
    }

    fn default() -> (class: Appearance) {
        Appearance::Primary
    }

    fn style(&self, class: &Appearance, status: Status) -> (style: Style) {
        match class {
            Appearance::Primary => primary(self, status),
            Appearance::Transparent => transparent(self, status),
        }
    }
}

/// What a divider answers to one event.
#[derive(Debug)]
pub struct Outcome<Message> {
    /// Whether the divider took the event.
    pub status: EventStatus,
    /// The message to publish, if any.
    pub message: Option<Message>,
}

/// What is drawn for a divider: one filled rectangle.
#[derive(Debug, Clone, Copy, PartialEq, Eq, Structural)]
pub struct Quad {
    /// Where the rectangle lies.
    pub bounds: Rectangle,
    /// What it looks like.
    pub style: Style,
}

/// What a divider is, as plain data.
pub struct DividerView<Message, F, Class> {
    /// The number that the divider sends along with each new value.
    pub index: usize,
    /// The handle.
    pub handle: HandleView,
    /// Makes the message for a new value.
    pub on_change: F,
    /// The message for the end of a drag, if there is one.
    pub on_release: Option<Message>,
    /// The width that the divider asks for.
    pub width: Length,
    /// The height that the divider asks for.
    pub height: Length,
    /// The style that the divider picks from its theme.
    pub class: Class,
}

impl<Message, F: Fn((usize, i32)) -> Message, Class> DividerView<Message, F, Class> {
    /// The handle is well formed, and a message can be made for every value.
    pub open spec fn wf(self) -> bool {
        &&& self.handle.wf()
        &&& forall|value: i32| call_requires(self.on_change, ((self.index, value),))
    }

    /// The same divider with another handle.
    pub open spec fn holding(self, handle: HandleView) -> Self {
        DividerView { handle, ..self }
    }

    /// Whether the divider has a message to send for `notice`: for a new
    /// value always, for the end of a drag if it was given one.
    pub open spec fn publishes(self, notice: Notice) -> bool {
        match notice {
            Notice::Quiet => false,
            Notice::Changed(_) => true,
            Notice::Released => self.on_release is Some,
        }
    }
}

impl<Message: Clone, F: Fn((usize, i32)) -> Message, Class> DividerView<Message, F, Class> {
    /// Whether `message` is what the divider sends for `notice`: for a new
    /// value what `on_change` makes of the index and the value, for the end
    /// of a drag a copy of the release message.
    pub open spec fn sends(self, notice: Notice, message: Option<Message>) -> bool {
        match notice {
            Notice::Quiet => message is None,
            Notice::Changed(value) => {
                &&& message is Some
                &&& call_ensures(self.on_change, ((self.index, value),), message->0)
            },
            Notice::Released => match self.on_release {
                Some(release) => message is Some && cloned(release, message->0),
                None => message is None,
            },
        }
    }
}

/// A draggable divider with one handle.
#[verifier::reject_recursive_types(Message)]
#[verifier::reject_recursive_types(F)]
#[verifier::reject_recursive_types(Theme)]
pub struct Divider<Message, F: Fn((usize, i32)) -> Message, Theme: Catalog = Palette> {
    index: usize,
    handle: Handle,
    on_change: F,
    on_release: Option<Message>,
    width: Length,
    height: Length,
    class: Theme::Class,
}

impl<Message, F: Fn((usize, i32)) -> Message, Theme: Catalog> View for Divider<Message, F, Theme> {
    type V = DividerView<Message, F, Theme::Class>;

    closed spec fn view(&self) -> Self::V {
        DividerView {
            index: self.index,
            handle: self.handle@,
            on_change: self.on_change,
            on_release: self.on_release,
            width: self.width,
            height: self.height,
            class: self.class,
        }
    }
}

impl<Message, F: Fn((usize, i32)) -> Message, Theme: Catalog> Divider<Message, F, Theme> {
    /// What holds of every divider.
    #[verifier::type_invariant]
    pub open spec fn wf(self) -> bool {
        self@.wf()
    }

    /// The default height of a divider.
    pub const DEFAULT_HEIGHT: u32 = 21;

    /// A divider whose handle has the given size and stands at `value`,
    /// forced into `range`. `on_change` makes the message for each new
    /// value, from `index` and the value. The step is 1, the handle moves
    /// left and right, the divider fills the room it is given, and the end
    /// of a drag sends nothing.
    pub fn new(
        index: usize,
        value: i32,
        range: RangeInclusive<i32>,
        handle_width: u32,
        handle_height: u32,
        on_change: F,
    ) -> (divider: Self)
        requires
            forall|value: i32| call_requires(on_change, ((index, value),)),
        ensures
            divider.wf(),
            divider@.index == index,
            divider@.handle.value == clamp_value(
                value as int,
                range@.start as int,
                range@.end as int,
            ),
            divider@.handle.start == range@.start,
            divider@.handle.end == range@.end,
            divider@.handle.step == 1,
            divider@.handle.direction == Direction::Horizontal,
            divider@.handle.width == handle_width,
            divider@.handle.height == handle_height,
            divider@.on_change == on_change,
            divider@.on_release is None,
            divider@.width == Length::Fill,
            divider@.height == Length::Fill,
            divider@.class == Theme::default_class(),
    {
        Divider {
            index,
            handle: Handle::new(value, range, handle_width, handle_height),
            on_change,
            on_release: None,
            width: Length::Fill,
            height: Length::Fill,
            class: Theme::default(),
        }
    }

    /// Sets the message that the end of a drag sends.
    pub fn on_release(self, on_release: Message) -> (divider: Self)
        ensures
            divider.wf(),
            divider@ == (DividerView { on_release: Some(on_release), ..self@ }),
    {
        proof {
            use_type_invariant(&self);
        }
        let mut divider = self;
        divider.on_release = Some(on_release);
        divider
    }

    /// Sets the width that the divider asks for.
    pub fn width(self, width: Length) -> (divider: Self)
        ensures
            divider.wf(),
            divider@ == (DividerView { width, ..self@ }),
    {
        proof {
            use_type_invariant(&self);
        }
        let mut divider = self;
        divider.width = width;
        divider
    }

    /// Sets the height that the divider asks for.
    pub fn height(self, height: Length) -> (divider: Self)
        ensures
            divider.wf(),
            divider@ == (DividerView { height, ..self@ }),
    {
        proof {
            use_type_invariant(&self);
        }
        let mut divider = self;
        divider.height = height;
        divider
    }

    /// Sets the step. A step that is not positive is replaced by 1, the
    /// smallest positive step.
    pub fn step(self, step: i32) -> (divider: Self)
        ensures
            divider.wf(),
            divider@ == self@.holding(
                HandleView { step: if step >= 1 { step } else { 1 }, ..self@.handle },
            ),
    {
        proof {
            use_type_invariant(&self);
        }
        let Divider { index, handle, on_change, on_release, width, height, class } = self;
        Divider {
            index,
            handle: handle.with_step(step),
            on_change,
            on_release,
            width,
            height,
            class,
        }
    }

    /// Sets the axis along which the handle moves.
    pub fn direction(self, direction: Direction) -> (divider: Self)
        ensures
            divider.wf(),
            divider@ == self@.holding(HandleView { direction, ..self@.handle }),
    {
        proof {
            use_type_invariant(&self);
        }
        let Divider { index, handle, on_change, on_release, width, height, class } = self;
        Divider {
            index,
            handle: handle.with_direction(direction),
            on_change,
            on_release,
            width,
            height,
            class,
        }
    }

    /// Sets the size of the handle.
    pub fn handle_size(self, handle_width: u32, handle_height: u32) -> (divider: Self)
        ensures
            divider.wf(),
            divider@ == self@.holding(
                HandleView { width: handle_width, height: handle_height, ..self@.handle },
            ),
    {
        proof {
            use_type_invariant(&self);
        }
        let Divider { index, handle, on_change, on_release, width, height, class } = self;
        Divider {
            index,
            handle: handle.with_size(handle_width, handle_height),
            on_change,
            on_release,
            width,
            height,
            class,
        }
    }

    /// Sets the style that the divider picks from its theme.
    pub fn class(self, class: Theme::Class) -> (divider: Self)
        ensures
            divider.wf(),
            divider@ == (DividerView { class, ..self@ }),
    {
        proof {
            use_type_invariant(&self);
        }
        let mut divider = self;
        divider.class = class;
        divider
    }

    /// The number that the divider sends along with each new value.
    pub fn index(&self) -> (index: usize)
        ensures
            index == self@.index,
    {
        self.index
    }

    /// The value that the handle stands for.
    pub fn value(&self) -> (value: i32)
        ensures
            value == self@.handle.value,
            self@.handle.start <= self@.handle.end ==> self@.handle.start <= value
                <= self@.handle.end,
    {
        self.handle.value()
    }

    /// The handle.
    pub fn handle(&self) -> (handle: &Handle)
        ensures
            handle@ == self@.handle,
            handle.wf(),
    {
        proof {
            use_type_invariant(self);
        }
        &self.handle
    }

    /// The room that the divider asks for: its width, and as little height
    /// as possible.
    pub fn size(&self) -> (size: Size)
        ensures
            size == (Size { width: self@.width, height: Length::Shrink }),
    {
        Size { width: self.width, height: Length::Shrink }
    }

    /// The width and the height that a layout gives the divider room by.
    pub fn lengths(&self) -> (size: Size)
        ensures
            size == (Size { width: self@.width, height: self@.height }),
    {
        Size { width: self.width, height: self.height }
    }

    /// Maps the position of the pointer to the value that it asks for.
    pub fn locate(&self, bounds: Rectangle, position: Point) -> (value: i32)
        ensures
            value == self@.handle.located(bounds, position),
    {
        self.handle.locate(bounds, position)
    }

    /// How the divider presents itself.
    pub fn status(&self, state: DragState, bounds: Rectangle, cursor: Cursor) -> (status: Status)
        ensures
            status == self@.handle.status(state, bounds, cursor),
    {
        self.handle.status(state, bounds, cursor)
    }

    /// The pointer shape that the divider asks for.
    pub fn mouse_interaction(&self, state: DragState, bounds: Rectangle, cursor: Cursor) -> (hint:
        Interaction)
        ensures
            hint == self@.handle.interaction(state, bounds, cursor),
    {
        self.handle.mouse_interaction(state, bounds, cursor)
    }

    /// What is drawn for the divider: the rectangle of the handle at its
    /// offset on the track, in the style that `theme` gives to the class of
    /// the divider in its present status.
    pub fn draw(&self, state: DragState, theme: &Theme, bounds: Rectangle, cursor: Cursor) -> (quad:
        Quad)
        requires
            bounds.is_bounded(),
        ensures
            self@.handle.drawn_at(bounds, quad.bounds),
            quad.style == theme.resolved(
                &self@.class,
                self@.handle.status(state, bounds, cursor),
            ),
    {
        let status: Status = self.handle.status(state, bounds, cursor);
        Quad { bounds: self.handle.quad(bounds), style: theme.style(&self.class, status) }
    }
}

impl<Message: Clone, F: Fn((usize, i32)) -> Message, Theme: Catalog> Divider<Message, F, Theme> {
    /// The message that the divider sends for `notice`, if any.
    pub fn publish(&self, notice: Notice) -> (message: Option<Message>)
        ensures
            self@.sends(notice, message),
            message is Some <==> self@.publishes(notice),
    {
        proof {
            use_type_invariant(self);
        }
        match notice {
            Notice::Quiet => None,
            Notice::Changed(value) => {
                assert(call_requires(self@.on_change, ((self@.index, value),)));
                Some((self.on_change)((self.index, value)))
            },
            Notice::Released => self.on_release.clone(),
        }
    }

    /// Takes one event: moves the handle and the drag state as the event
    /// asks, and answers with the message to publish.
    pub fn on_event(
        &mut self,
        state: &mut DragState,
        event: Event,
        bounds: Rectangle,
        cursor: Cursor,
    ) -> (outcome: Outcome<Message>)
        ensures
            final(self)@ == old(self)@.holding(
                old(self)@.handle.react(*old(state), event, bounds, cursor).handle,
            ),
            *final(state) == old(self)@.handle.react(*old(state), event, bounds, cursor).state,
            outcome.status == old(self)@.handle.react(
                *old(state),
                event,
                bounds,
                cursor,
            ).reaction.status,
            old(self)@.sends(
                old(self)@.handle.react(*old(state), event, bounds, cursor).reaction.notice,
                outcome.message,
            ),
            outcome.message is Some <==> old(self)@.publishes(
                old(self)@.handle.react(*old(state), event, bounds, cursor).reaction.notice,
            ),
    {
        proof {
            use_type_invariant(&*self);
        }
        let mut handle: Handle = self.handle;
        let reaction: Reaction = handle.on_event(state, event, bounds, cursor);
        proof {
            use_type_invariant(&handle);
        }
        self.handle = handle;
        let message: Option<Message> = self.publish(reaction.notice);
        Outcome { status: reaction.status, message }
    }
}

/// A divider, as [`Divider::new`] makes it.
pub fn divider<Message, F: Fn((usize, i32)) -> Message, Theme: Catalog>(
    index: usize,
    value: i32,
    range: RangeInclusive<i32>,
    handle_width: u32,
    handle_height: u32,
    on_change: F,
) -> (divider: Divider<Message, F, Theme>)
    requires
        forall|value: i32| call_requires(on_change, ((index, value),)),
    ensures
        divider.wf(),
        divider@.index == index,
        divider@.handle.value == clamp_value(value as int, range@.start as int, range@.end as int),
        divider@.handle.start == range@.start,
        divider@.handle.end == range@.end,
        divider@.handle.step == 1,
        divider@.handle.direction == Direction::Horizontal,
        divider@.handle.width == handle_width,
        divider@.handle.height == handle_height,
        divider@.on_change == on_change,
        divider@.on_release is None,
        divider@.width == Length::Fill,
        divider@.height == Length::Fill,
        divider@.class == Theme::default_class(),
{
    Divider::new(index, value, range, handle_width, handle_height, on_change)
}

} // verus!
