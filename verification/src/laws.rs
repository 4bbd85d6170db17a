//! What follows from the button's rules, proved over the same functions
//! that the contracts of the library speak of.

use vstd::prelude::*;
use crate::event::{Capture, Event};
use crate::status::{status_of, Status};
use crate::style::{border_color_of, draw_plan_of, inner_fill_of, inner_quad_of, outer_quad_of};
use crate::transition::{transition_of, Input};

verus! {

/// A press over the button that the content left alone.
pub open spec fn press_inside() -> Input {
    Input { event: Event::Pressed, over: true, child_captured: false }
}

/// A release at the given place that the content left alone.
pub open spec fn release(over: bool) -> Input {
    Input { event: Event::Released, over, child_captured: false }
}

/// Where a run of events ends, and how often it published and asked for
/// another frame on the way.
pub struct Run {
    pub is_pressed: bool,
    pub status: Option<Status>,
    pub published: nat,
    pub redraws: nat,
}

/// Feeds the events to a button one after the other, from the given pressed
/// flag and settled status.
pub open spec fn run(
    has_handler: bool,
    is_pressed: bool,
    settled: Option<Status>,
    inputs: Seq<Input>,
) -> Run
    decreases inputs.len(),
{
    if inputs.len() == 0 {
        Run { is_pressed, status: settled, published: 0, redraws: 0 }
    } else {
        let before = run(has_handler, is_pressed, settled, inputs.drop_last());
        let t = transition_of(has_handler, before.is_pressed, before.status, inputs.last());
        Run {
            is_pressed: t.is_pressed,
            status: t.status,
            published: before.published + if t.publish { 1nat } else { 0nat },
            redraws: before.redraws + if t.redraw { 1nat } else { 0nat },
        }
    }
}

/// `n` clicks in a row: each a press over the button, then a release over it.
pub open spec fn clicks(n: nat) -> Seq<Input>
    decreases n,
{
    if n == 0 {
        Seq::empty()
    } else {
        clicks((n - 1) as nat).push(press_inside()).push(release(true))
    }
}

/// A press over a button with a handler followed by a release over it
/// publishes exactly once, on the release, and leaves the button unpressed.
/// Both events are consumed.
pub proof fn law_click_publishes_once(was_pressed: bool, settled: Option<Status>)
    ensures
        ({
            let down = transition_of(true, was_pressed, settled, press_inside());
            let up = transition_of(true, down.is_pressed, down.status, release(true));
            &&& down.is_pressed
            &&& !down.publish
            &&& down.capture == Capture::Captured
            &&& up.publish
            &&& !up.is_pressed
            &&& up.capture == Capture::Captured
        }),
{
}

/// Any number of clicks on a button with a handler publishes one message
/// for each of them, and leaves the button unpressed after the last.
pub proof fn law_clicks_publish_one_each(n: nat, was_pressed: bool, settled: Option<Status>)
    ensures
        run(true, was_pressed, settled, clicks(n)).published == n,
        n > 0 ==> !run(true, was_pressed, settled, clicks(n)).is_pressed,
    decreases n,
{
    if n > 0 {
        let before = clicks((n - 1) as nat);
        let held = before.push(press_inside());
        law_clicks_publish_one_each((n - 1) as nat, was_pressed, settled);
        assert(clicks(n) == held.push(release(true)));
        assert(clicks(n).drop_last() == held);
        assert(held.drop_last() == before);
        assert(clicks(n).last() == release(true));
        assert(held.last() == press_inside());
        let at_rest = run(true, was_pressed, settled, before);
        let down = run(true, was_pressed, settled, held);
        assert(down.published == at_rest.published);
        assert(down.is_pressed);
    }
}

/// A release away from the button, after a press over it, publishes nothing
/// and still clears the pressed flag.
pub proof fn law_release_outside_publishes_nothing(was_pressed: bool, settled: Option<Status>)
    ensures
        ({
            let down = transition_of(true, was_pressed, settled, press_inside());
            let up = transition_of(true, down.is_pressed, down.status, release(false));
            &&& down.is_pressed
            &&& !down.publish
            &&& !up.publish
            &&& !up.is_pressed
        }),
{
}

/// A lost touch is always consumed, and clears the pressed flag whatever it
/// was, unless the content consumed the event before the button saw it.
pub proof fn law_lost_touch_clears_pressed(
    has_handler: bool,
    was_pressed: bool,
    settled: Option<Status>,
    input: Input,
)
    requires
        input.event == Event::Lost,
    ensures
        transition_of(has_handler, was_pressed, settled, input).capture == Capture::Captured,
        !transition_of(has_handler, was_pressed, settled, input).publish,
        !input.child_captured ==> !transition_of(
            has_handler,
            was_pressed,
            settled,
            input,
        ).is_pressed,
{
}

/// Without a handler the status is `Disabled` wherever the pointer is and
/// whatever the pressed flag says, and a press or a release neither changes
/// the flag nor publishes.
pub proof fn law_no_handler_is_inert(was_pressed: bool, settled: Option<Status>, input: Input)
    ensures
        status_of(false, was_pressed, input.over) == Status::Disabled,
        input.event == Event::Pressed || input.event == Event::Released ==> transition_of(
            false,
            was_pressed,
            settled,
            input,
        ).is_pressed == was_pressed,
        !transition_of(false, was_pressed, settled, input).publish,
{
}

/// No run of events publishes on a button without a handler.
pub proof fn law_no_handler_never_publishes(
    was_pressed: bool,
    settled: Option<Status>,
    inputs: Seq<Input>,
)
    ensures
        run(false, was_pressed, settled, inputs).published == 0,
    decreases inputs.len(),
{
    if inputs.len() > 0 {
        law_no_handler_never_publishes(was_pressed, settled, inputs.drop_last());
    }
}

/// How many of the events are releases.
pub open spec fn releases(inputs: Seq<Input>) -> nat
    decreases inputs.len(),
{
    if inputs.len() == 0 {
        0
    } else {
        releases(inputs.drop_last()) + if inputs.last().event == Event::Released {
            1nat
        } else {
            0nat
        }
    }
}

/// Only a release publishes, and one release publishes at most once: a run
/// publishes no more often than it holds releases.
pub proof fn law_at_most_one_message_per_release(
    has_handler: bool,
    was_pressed: bool,
    settled: Option<Status>,
    inputs: Seq<Input>,
)
    ensures
        run(has_handler, was_pressed, settled, inputs).published <= releases(inputs),
    decreases inputs.len(),
{
    if inputs.len() > 0 {
        law_at_most_one_message_per_release(has_handler, was_pressed, settled, inputs.drop_last());
    }
}

/// An event that is neither a press, a release nor a lost touch leaves the
/// pressed flag alone, so the status computed after it, and after any
/// number of its like with the pointer in the same place, is the one
/// computed before.
pub proof fn law_status_recomputes_to_itself(
    has_handler: bool,
    was_pressed: bool,
    settled: Option<Status>,
    input: Input,
)
    requires
        input.event == Event::Other || input.event == Event::RedrawRequested,
    ensures
        transition_of(has_handler, was_pressed, settled, input).is_pressed == was_pressed,
        status_of(
            has_handler,
            transition_of(has_handler, was_pressed, settled, input).is_pressed,
            input.over,
        ) == status_of(has_handler, was_pressed, input.over),
{
}

/// An event that the content left alone, that is no frame boundary and
/// that leaves the pointer where it is.
pub open spec fn idle(input: Input, over: bool) -> bool {
    input.event == Event::Other && input.over == over && !input.child_captured
}

/// Another frame is asked for only when a status is settled and the status
/// of the moment differs from it.
pub proof fn law_redraw_only_on_change(
    has_handler: bool,
    was_pressed: bool,
    settled: Option<Status>,
    input: Input,
)
    ensures
        ({
            let t = transition_of(has_handler, was_pressed, settled, input);
            t.redraw ==> settled.is_some() && settled != Some(
                status_of(has_handler, t.is_pressed, input.over),
            )
        }),
{
}

/// Once a frame boundary has settled the status, the next event asks for
/// another frame exactly when it changes the status of the moment; the
/// frame that follows settles the new status and asks for nothing.
pub proof fn law_one_request_per_change(
    has_handler: bool,
    was_pressed: bool,
    settled: Option<Status>,
    frame: Input,
    next: Input,
)
    requires
        frame.event == Event::RedrawRequested,
        !frame.child_captured,
        next.event != Event::RedrawRequested,
        !next.child_captured,
    ensures
        ({
            let at_frame = transition_of(has_handler, was_pressed, settled, frame);
            let after = transition_of(has_handler, at_frame.is_pressed, at_frame.status, next);
            let following = transition_of(
                has_handler,
                after.is_pressed,
                after.status,
                Input { event: Event::RedrawRequested, over: next.over, child_captured: false },
            );
            &&& !at_frame.redraw
            &&& at_frame.is_pressed == was_pressed
            &&& at_frame.status == Some(status_of(has_handler, was_pressed, frame.over))
            &&& after.redraw <==> status_of(has_handler, after.is_pressed, next.over) != status_of(
                has_handler,
                was_pressed,
                frame.over,
            )
            &&& !following.redraw
            &&& following.status == Some(status_of(has_handler, after.is_pressed, next.over))
        }),
{
}

/// While nothing happens to the button, nothing changes: a run of idle
/// events, begun with no status settled or with the status of the moment
/// settled, leaves the pressed flag and the settled status as they were and
/// never asks for another frame.
pub proof fn law_idle_run_is_quiet(
    has_handler: bool,
    was_pressed: bool,
    settled: Option<Status>,
    over: bool,
    inputs: Seq<Input>,
)
    requires
        settled is None || settled == Some(status_of(has_handler, was_pressed, over)),
        forall|i: int| 0 <= i < inputs.len() ==> idle(#[trigger] inputs[i], over),
    ensures
        run(has_handler, was_pressed, settled, inputs).is_pressed == was_pressed,
        run(has_handler, was_pressed, settled, inputs).status == settled,
        run(has_handler, was_pressed, settled, inputs).redraws == 0,
        run(has_handler, was_pressed, settled, inputs).published == 0,
    decreases inputs.len(),
{
    if inputs.len() > 0 {
        let front = inputs.drop_last();
        assert forall|i: int| 0 <= i < front.len() implies idle(#[trigger] front[i], over) by {
            assert(front[i] == inputs[i]);
        }
        law_idle_run_is_quiet(has_handler, was_pressed, settled, over, front);
        assert(idle(inputs[inputs.len() - 1], over));
    }
}

/// What is painted depends on the settled status and the clip flag alone:
/// the same status and flag give the same colours, the same stops and the
/// same insets.
pub proof fn law_draw_is_determined(
    first: Option<Status>,
    second: Option<Status>,
    first_clip: bool,
    second_clip: bool,
)
    requires
        first == second,
        first_clip == second_clip,
    ensures
        draw_plan_of(first, first_clip) == draw_plan_of(second, second_clip),
        outer_quad_of(first) == outer_quad_of(second),
        inner_quad_of(first) == inner_quad_of(second),
{
}

/// A button that has settled no status is painted as an active one.
pub proof fn law_unsettled_paints_as_active(clip: bool)
    ensures
        draw_plan_of(None, clip) == draw_plan_of(Some(Status::Active), clip),
{
}

/// The four statuses are told apart by their border colour and by their
/// inner fill.
pub proof fn law_statuses_look_different(first: Status, second: Status)
    requires
        first != second,
    ensures
        border_color_of(Some(first)) != border_color_of(Some(second)),
        inner_fill_of(Some(first)) != inner_fill_of(Some(second)),
{
}

} // verus!
