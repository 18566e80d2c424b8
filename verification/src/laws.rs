//! What holds of a divider whatever it is given: theorems over the models
//! that the contracts of the library speak of.

use vstd::prelude::*;
use vstd::arithmetic::div_mod::{
    lemma_div_is_ordered,
    lemma_div_multiples_vanish,
    lemma_fundamental_div_mod,
    lemma_mod_bound,
    lemma_mod_multiples_basic,
};
use crate::divider::{Direction, DividerView, Status};
use crate::event::{DragState, Event, EventStatus, Interaction, Notice, Reaction};
use crate::geometry::{Cursor, Point, Rectangle};
use crate::handle::{HandleView, Turn};
use crate::multi_divider::MultiDividerView;
use crate::scale::{
    clamp_value,
    lemma_locate_in_range,
    lemma_offset_bounds,
    locate_value,
    offset_value,
    round_div,
};

verus! {

/// A value forced into a range is a value of that range. A range that holds
/// nothing gives its lower bound. A value of the range is left as it is, so
/// forcing twice is forcing once.
pub proof fn law_clamp(value: int, start: int, end: int)
    ensures
        start <= end ==> start <= clamp_value(value, start, end) <= end,
        start > end ==> clamp_value(value, start, end) == start,
        start <= value <= end ==> clamp_value(value, start, end) == value,
        clamp_value(clamp_value(value, start, end), start, end) == clamp_value(value, start, end),
{
}

/// No event takes the value of a handle out of its range: a well-formed
/// handle is well formed after every event, and only its value can have
/// changed.
pub proof fn law_value_stays_in_range(
    handle: HandleView,
    state: DragState,
    event: Event,
    bounds: Rectangle,
    cursor: Cursor,
)
    requires
        handle.wf(),
    ensures
        handle.react(state, event, bounds, cursor).handle.wf(),
        handle.react(state, event, bounds, cursor).handle == handle.at(
            handle.react(state, event, bounds, cursor).handle.value,
        ),
{
    if let Cursor::Available(position) = cursor {
        handle.lemma_located_exact(bounds, position);
    }
}

/// Where the pointer asks a handle to go depends on the range, the step, the
/// axis, the track and the position of the pointer, and on nothing else:
/// neither on the value that the handle has nor on its size. So asking twice
/// gives the same answer, also after the handle has moved.
pub proof fn law_locate_is_a_function_of_the_track(
    first: HandleView,
    second: HandleView,
    bounds: Rectangle,
    position: Point,
)
    requires
        first.start == second.start,
        first.end == second.end,
        first.step == second.step,
        first.direction == second.direction,
    ensures
        first.located(bounds, position) == second.located(bounds, position),
        first.follow(bounds, position).handle.located(bounds, position) == first.located(
            bounds,
            position,
        ),
        first.follow(bounds, position).handle.value == first.located(bounds, position),
{
}

/// A pointer at or before the near edge of the track asks for the start of
/// the range. A pointer at or after the far edge, and past the near edge,
/// asks for the end of the range.
pub proof fn law_edges(start: int, end: int, step: int, origin: int, extent: int, coord: int)
    ensures
        coord <= origin ==> locate_value(start, end, step, origin, extent, coord) == start,
        origin < coord && origin + extent <= coord ==> locate_value(
            start,
            end,
            step,
            origin,
            extent,
            coord,
        ) == end,
{
}

/// The same for a handle: a pointer at or before the near edge of the track
/// asks for the start of the range, one at or after the far edge, and past
/// the near edge, for its end.
pub proof fn law_handle_edges(handle: HandleView, bounds: Rectangle, position: Point)
    ensures
        handle.direction.coordinate_spec(position) <= handle.direction.origin_spec(bounds)
            ==> handle.located(bounds, position) == handle.start,
        handle.direction.origin_spec(bounds) < handle.direction.coordinate_spec(position)
            && handle.direction.origin_spec(bounds) + handle.direction.extent_spec(bounds)
            <= handle.direction.coordinate_spec(position) ==> handle.located(bounds, position)
            == handle.end,
{
}

/// Rounding is to the nearest whole number: `n` lies within half a `d` of
/// `round_div(n, d) * d`, and a tie goes up.
pub proof fn law_rounding_is_to_the_nearest(n: int, d: int)
    requires
        0 < d,
    ensures
        -d <= 2 * (n - round_div(n, d) * d) < d,
{
    let x: int = 2 * n + d;
    let y: int = 2 * d;
    lemma_fundamental_div_mod(x, y);
    lemma_mod_bound(x, y);
    let q: int = x / y;
    assert(y * q == 2 * (q * d)) by (nonlinear_arith)
        requires
            y == 2 * d,
    ;
}

/// Between the edges of the track, on a range with `start < end`, the
/// located value is the end of the range or lies a whole number of steps
/// above its start.
pub proof fn law_located_value_is_on_the_grid(
    start: int,
    end: int,
    step: int,
    origin: int,
    extent: int,
    coord: int,
)
    requires
        step >= 1,
        start < end,
        origin < coord < origin + extent,
    ensures
        ({
            let value: int = locate_value(start, end, step, origin, extent, coord);
            let steps: int = round_div((coord - origin) * (end - start), extent * step);
            &&& start <= value <= end
            &&& value == end || value == start + steps * step
            &&& value == end || (value - start) % step == 0
        }),
{
    lemma_locate_in_range(start, end, step, origin, extent, coord);
    let steps: int = round_div((coord - origin) * (end - start), extent * step);
    lemma_mod_multiples_basic(steps, step);
}

/// A pointer further along the track never asks for a smaller value, on a
/// range with `start <= end`.
pub proof fn law_locate_is_monotonic(
    start: int,
    end: int,
    step: int,
    origin: int,
    extent: int,
    near: int,
    far: int,
)
    requires
        step >= 1,
        start <= end,
        near <= far,
    ensures
        locate_value(start, end, step, origin, extent, near) <= locate_value(
            start,
            end,
            step,
            origin,
            extent,
            far,
        ),
{
    lemma_locate_in_range(start, end, step, origin, extent, near);
    lemma_locate_in_range(start, end, step, origin, extent, far);
    if origin < near && far < origin + extent && start < end {
        let span: int = end - start;
        let d: int = extent * step;
        assert(d > 0) by (nonlinear_arith)
            requires
                d == extent * step,
                extent > 0,
                step > 0,
        ;
        assert((near - origin) * span <= (far - origin) * span) by (nonlinear_arith)
            requires
                near <= far,
                span > 0,
        ;
        lemma_div_is_ordered(
            2 * ((near - origin) * span) + d,
            2 * ((far - origin) * span) + d,
            2 * d,
        );
        let low: int = round_div((near - origin) * span, d);
        let high: int = round_div((far - origin) * span, d);
        assert(low * step <= high * step) by (nonlinear_arith)
            requires
                low <= high,
                step > 0,
        ;
    }
}

/// The offset of a handle lies on the track: the start of the range is
/// drawn at the near edge, its end at the far edge, and every value of the
/// range in between. A range with `start >= end` is drawn at the near edge.
pub proof fn law_offset(value: int, start: int, end: int, extent: int)
    requires
        0 <= extent,
    ensures
        start >= end ==> offset_value(value, start, end, extent) == 0,
        start < end ==> offset_value(start, start, end, extent) == 0,
        start < end ==> offset_value(end, start, end, extent) == extent,
        start <= value <= end ==> 0 <= offset_value(value, start, end, extent) <= extent,
{
    if start < end {
        assert(extent * (start - start) == 0) by (nonlinear_arith);
        lemma_div_multiples_vanish(extent, end - start);
        assert(extent * (end - start) == (end - start) * extent) by (nonlinear_arith);
    }
    if start <= value <= end {
        lemma_offset_bounds(value, start, end, extent);
    }
}

/// On a range that counts the units of the track, from 0 to the length of
/// the track, a handle is drawn where it is hit: its offset is its value.
pub proof fn law_drawn_where_hit(handle: HandleView, bounds: Rectangle, quad: Rectangle)
    requires
        handle.wf(),
        handle.start == 0,
        handle.end == handle.direction.extent_spec(bounds),
        handle.drawn_at(bounds, quad),
    ensures
        handle.offset(bounds) == handle.value,
        forall|point: Point| quad.contains_spec(point) == handle.covers(bounds, point),
{
    let extent: int = handle.direction.extent_spec(bounds) as int;
    if extent > 0 {
        assert(extent * (handle.value - 0) == handle.value * extent) by (nonlinear_arith);
        lemma_div_multiples_vanish(handle.value as int, extent);
    }
}

/// Dragging to the same value twice reports it once. After a handle has
/// followed the pointer to one position, a move to a position that asks for
/// the same value is taken and changes nothing and reports nothing. The
/// first move reports the value exactly if it is a new one.
pub proof fn law_same_value_is_reported_once(
    handle: HandleView,
    bounds: Rectangle,
    first: Point,
    second: Point,
)
    requires
        handle.located(bounds, first) == handle.located(bounds, second),
    ensures
        ({
            let before: Turn = handle.react(
                DragState::Dragging,
                Event::PointerMove,
                bounds,
                Cursor::Available(first),
            );
            let after: Turn = before.handle.react(
                before.state,
                Event::PointerMove,
                bounds,
                Cursor::Available(second),
            );
            &&& before.state == DragState::Dragging
            &&& before.reaction.status == EventStatus::Captured
            &&& before.reaction.notice == (if handle.located(bounds, first) != handle.value {
                Notice::Changed(handle.located(bounds, first))
            } else {
                Notice::Quiet
            })
            &&& after.handle == before.handle
            &&& after.state == DragState::Dragging
            &&& after.reaction == (Reaction {
                status: EventStatus::Captured,
                notice: Notice::Quiet,
            })
        }),
{
}

/// The same for the press that starts a drag: a move that asks for the
/// value that the press has asked for reports nothing.
pub proof fn law_press_then_same_value_is_reported_once(
    handle: HandleView,
    state: DragState,
    bounds: Rectangle,
    first: Point,
    second: Point,
)
    requires
        handle.covers(bounds, first),
        handle.located(bounds, first) == handle.located(bounds, second),
    ensures
        ({
            let before: Turn = handle.react(
                state,
                Event::PointerDown,
                bounds,
                Cursor::Available(first),
            );
            let after: Turn = before.handle.react(
                before.state,
                Event::PointerMove,
                bounds,
                Cursor::Available(second),
            );
            &&& before.state == DragState::Dragging
            &&& before.reaction.status == EventStatus::Captured
            &&& before.reaction.notice == (if handle.located(bounds, first) != handle.value {
                Notice::Changed(handle.located(bounds, first))
            } else {
                Notice::Quiet
            })
            &&& after.handle == before.handle
            &&& after.reaction == (Reaction {
                status: EventStatus::Captured,
                notice: Notice::Quiet,
            })
        }),
{
}

/// The end of a press always ends a drag. A release or the loss of the
/// pointer while a handle is dragged is taken, leaves the handle where it
/// is, makes the state idle and reports the end of the drag. A second one
/// finds the state idle and passes by: nothing is reported twice.
pub proof fn law_end_of_press_ends_the_drag(
    handle: HandleView,
    first: Event,
    second: Event,
    bounds: Rectangle,
    cursor: Cursor,
    later: Cursor,
)
    requires
        first.ends_press(),
        second.ends_press(),
    ensures
        ({
            let before: Turn = handle.react(DragState::Dragging, first, bounds, cursor);
            let after: Turn = before.handle.react(before.state, second, bounds, later);
            &&& before.handle == handle
            &&& before.state == DragState::Idle
            &&& before.reaction == (Reaction {
                status: EventStatus::Captured,
                notice: Notice::Released,
            })
            &&& after.handle == handle
            &&& after.state == DragState::Idle
            &&& after.reaction == (Reaction {
                status: EventStatus::Ignored,
                notice: Notice::Quiet,
            })
        }),
{
}

/// While no drag is under way, only a press over the handle is taken:
/// moves, releases, the loss of the pointer and presses beside the handle
/// pass by and change nothing.
pub proof fn law_idle_handle_lets_events_pass(
    handle: HandleView,
    event: Event,
    bounds: Rectangle,
    cursor: Cursor,
)
    requires
        !(event == Event::PointerDown && handle.under(bounds, cursor)),
    ensures
        handle.react(DragState::Idle, event, bounds, cursor) == handle.pass(DragState::Idle),
{
}

/// A divider sends a message exactly for a new value and, if it was given a
/// release message, for the end of a drag. So the end of a drag is
/// announced once if a release message was given, and never if none was;
/// and a value is announced once however often the pointer asks for it.
pub proof fn law_messages<Message: Clone, F: Fn((usize, i32)) -> Message, Class>(
    divider: DividerView<Message, F, Class>,
    notice: Notice,
    message: Option<Message>,
)
    requires
        divider.sends(notice, message),
    ensures
        message is Some <==> divider.publishes(notice),
        notice == Notice::Quiet ==> message is None,
        notice == Notice::Released ==> (message is Some <==> divider.on_release is Some),
        notice is Changed ==> message is Some,
{
}

/// A divider announces a value once: after its handle has followed the
/// pointer to one position, which it announces exactly if that gives a new
/// value, a move to a position that asks for the same value sends nothing.
pub proof fn law_divider_announces_a_value_once<
    Message: Clone,
    F: Fn((usize, i32)) -> Message,
    Class,
>(divider: DividerView<Message, F, Class>, bounds: Rectangle, first: Point, second: Point)
    requires
        divider.handle.located(bounds, first) == divider.handle.located(bounds, second),
    ensures
        ({
            let before: Turn = divider.handle.react(
                DragState::Dragging,
                Event::PointerMove,
                bounds,
                Cursor::Available(first),
            );
            let moved: DividerView<Message, F, Class> = divider.holding(before.handle);
            let after: Turn = moved.handle.react(
                before.state,
                Event::PointerMove,
                bounds,
                Cursor::Available(second),
            );
            &&& divider.publishes(before.reaction.notice) <==> divider.handle.located(
                bounds,
                first,
            ) != divider.handle.value
            &&& !moved.publishes(after.reaction.notice)
            &&& moved.sends(after.reaction.notice, None)
            &&& moved.holding(after.handle) == moved
        }),
{
}

/// A divider announces the end of a drag once, and only if it was given a
/// release message: the release or the loss of the pointer that ends the
/// drag sends it, and a second one sends nothing.
pub proof fn law_divider_announces_the_release_once<
    Message: Clone,
    F: Fn((usize, i32)) -> Message,
    Class,
>(
    divider: DividerView<Message, F, Class>,
    first: Event,
    second: Event,
    bounds: Rectangle,
    cursor: Cursor,
    later: Cursor,
)
    requires
        first.ends_press(),
        second.ends_press(),
    ensures
        ({
            let before: Turn = divider.handle.react(DragState::Dragging, first, bounds, cursor);
            let after: Turn = before.handle.react(before.state, second, bounds, later);
            &&& divider.holding(before.handle) == divider
            &&& before.state == DragState::Idle
            &&& divider.publishes(before.reaction.notice) <==> divider.on_release is Some
            &&& forall|message: Option<Message>|
                divider.sends(before.reaction.notice, message) ==> (message is Some
                    <==> divider.on_release is Some)
            &&& after.state == DragState::Idle
            &&& !divider.publishes(after.reaction.notice)
            &&& divider.sends(after.reaction.notice, None)
        }),
{
}

/// The status of a handle: dragged before hovered, hovered before active.
pub proof fn law_status_priority(
    handle: HandleView,
    state: DragState,
    bounds: Rectangle,
    cursor: Cursor,
)
    ensures
        state == DragState::Dragging ==> handle.status(state, bounds, cursor) == Status::Dragged,
        state == DragState::Idle && cursor.is_over_spec(bounds) ==> handle.status(
            state,
            bounds,
            cursor,
        ) == Status::Hovered,
        state == DragState::Idle && !cursor.is_over_spec(bounds) ==> handle.status(
            state,
            bounds,
            cursor,
        ) == Status::Active,
{
}

/// A handle that does not take part is never pressed, hovered or dragged:
/// every event passes by and changes nothing, the status is active, and no
/// pointer shape is asked for. The last of the handles does not take part
/// where the last handle is left out.
pub proof fn law_left_out_handle_is_inert<Message, F: Fn((usize, i32)) -> Message, Class>(
    multi: MultiDividerView<Message, F, Class>,
    state: DragState,
    event: Event,
    bounds: Rectangle,
    cursor: Cursor,
)
    requires
        !multi.include_last_handle,
        multi.divider.index + 1 == multi.handle_count,
    ensures
        !multi.active(),
        multi.react(state, event, bounds, cursor) == multi.divider.handle.pass(state),
        multi.holding(multi.react(state, event, bounds, cursor).handle) == multi,
        !multi.divider.publishes(multi.react(state, event, bounds, cursor).reaction.notice),
        multi.status(state, bounds, cursor) == Status::Active,
        multi.interaction(state, bounds, cursor) == Interaction::Unspecified,
{
}

/// A handle that takes part goes by the rules of a single handle, but for
/// a press while a drag is under way, which passes by: one drag at a time.
pub proof fn law_handles_are_independent<Message, F: Fn((usize, i32)) -> Message, Class>(
    multi: MultiDividerView<Message, F, Class>,
    state: DragState,
    event: Event,
    bounds: Rectangle,
    cursor: Cursor,
)
    requires
        multi.active(),
    ensures
        !(event == Event::PointerDown && state == DragState::Dragging) ==> multi.react(
            state,
            event,
            bounds,
            cursor,
        ) == multi.divider.handle.react(state, event, bounds, cursor),
        event == Event::PointerDown && state == DragState::Dragging ==> multi.react(
            state,
            event,
            bounds,
            cursor,
        ) == multi.divider.handle.pass(state),
        multi.status(state, bounds, cursor) == multi.divider.handle.status(state, bounds, cursor),
        multi.interaction(state, bounds, cursor) == multi.divider.handle.interaction(
            state,
            bounds,
            cursor,
        ),
{
}

/// A well-formed divider with several handles tests hits with the extent
/// of the handle that is addressed: along the axis that extent, across the
/// axis the common one.
pub proof fn law_handle_has_its_own_extent<Message, F: Fn((usize, i32)) -> Message, Class>(
    multi: MultiDividerView<Message, F, Class>,
    bounds: Rectangle,
    point: Point,
)
    requires
        multi.wf(),
        multi.divider.index < multi.handle_count,
    ensures
        multi.extents.len() == 1 ==> multi.active_extent() == multi.extents[0],
        multi.extents.len() != 1 ==> multi.active_extent() == multi.extents[multi.divider.index
            as int],
        multi.divider.handle.covers(bounds, point) <==> {
            let value: int = multi.divider.handle.value as int;
            let along: int = multi.divider.handle.direction.coordinate_spec(point) as int;
            let across: int = match multi.divider.handle.direction {
                Direction::Horizontal => point.y as int,
                Direction::Vertical => point.x as int,
            };
            let near: int = multi.divider.handle.direction.origin_spec(bounds) + value;
            let side: int = match multi.divider.handle.direction {
                Direction::Horizontal => bounds.y as int,
                Direction::Vertical => bounds.x as int,
            };
            &&& near <= along < near + multi.active_extent()
            &&& side <= across < side + multi.cross_extent
        },
{
}

} // verus!
