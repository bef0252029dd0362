//! Properties of the driver that span several events.
//!
//! [`spec_run`] and [`spec_actions`] fold [`spec_step`] and [`spec_action`]
//! over a whole sequence of events; the lemmas here state what any embedding
//! loop may rely on across such a sequence.

use vstd::prelude::*;

use crate::driver::{
    Action, Bundle, BundleState, Driver, Event, spec_action, spec_install, spec_schedule,
    spec_step,
};

verus! {

/// The state after a whole sequence of events, dispatched first to last.
pub open spec fn spec_run(state: Driver, events: Seq<Event>) -> Driver
    decreases events.len(),
{
    if events.len() == 0 {
        state
    } else {
        spec_run(spec_step(state, events[0]), events.skip(1))
    }
}

/// The action each event of a sequence demands, in dispatch order.
pub open spec fn spec_actions(state: Driver, events: Seq<Event>) -> Seq<Action>
    decreases events.len(),
{
    if events.len() == 0 {
        Seq::empty()
    } else {
        seq![spec_action(state, events[0])] + spec_actions(spec_step(state, events[0]), events.skip(1))
    }
}

/// Each action of a run answers the event at its own index, out of the state
/// the events before it produced.
pub proof fn lemma_actions_len(state: Driver, events: Seq<Event>)
    ensures
        spec_actions(state, events).len() == events.len(),
    decreases events.len(),
{
    if events.len() > 0 {
        lemma_actions_len(spec_step(state, events[0]), events.skip(1));
    }
}

/// Every event of the sequence is a resize.
pub open spec fn all_resizes(events: Seq<Event>) -> bool {
    forall|i: int| 0 <= i < events.len() ==> events[i] is Resized
}

/// For every sequence of resize events delivered while the bundle is present,
/// the surface configuration afterwards holds exactly the size the last one
/// delivered, and the action answering each resize is the reconfiguration to
/// that event's own size — so the surface is reconfigured before any later
/// event can demand a draw.
pub proof fn lemma_resizes_track_latest_size(state: Driver, events: Seq<Event>)
    requires
        !state.terminal,
        state.bundle is Ready,
        all_resizes(events),
        events.len() > 0,
    ensures
        spec_run(state, events).bundle is Ready,
        spec_run(state, events).bundle->0.config.width == events.last()->width,
        spec_run(state, events).bundle->0.config.height == events.last()->height,
        spec_actions(state, events).len() == events.len(),
        forall|i: int| 0 <= i < events.len() ==> spec_actions(state, events)[i]
            == (Action::Reconfigure { width: events[i]->width, height: events[i]->height }),
    decreases events.len(),
{
    lemma_actions_len(state, events);
    let stepped = spec_step(state, events[0]);
    if events.len() == 1 {
        assert(events.skip(1) =~= Seq::<Event>::empty());
    } else {
        lemma_resizes_track_latest_size(stepped, events.skip(1));
        assert(events.skip(1).last() == events.last());
        assert forall|i: int| 0 <= i < events.len() implies spec_actions(state, events)[i]
            == (Action::Reconfigure { width: events[i]->width, height: events[i]->height }) by {
            if i > 0 {
                let tail_actions = spec_actions(stepped, events.skip(1));
                assert(spec_actions(state, events)[i] == tail_actions[i - 1]);
                assert(events.skip(1)[i - 1] == events[i]);
            }
        }
    }
}

/// On a platform without a suspend lifecycle, a resume while the bundle is
/// already present changes nothing: the bundle keeps its identity and no
/// action is demanded.
pub proof fn lemma_resume_without_lifecycle_is_noop(state: Driver)
    requires
        !state.terminal,
        !state.suspend_lifecycle,
        state.bundle is Ready,
    ensures
        spec_step(state, Event::Resumed) == state,
        spec_action(state, Event::Resumed) == Action::Nothing,
{
}

/// On a platform with the suspend lifecycle, a suspend empties the bundle and
/// demands the release of its resources, the resume that follows demands a
/// fresh initialization, and installing that initialization's result leaves a
/// bundle equal to the fresh one in every field — no handle of the bundle
/// that existed before the suspend remains.
pub proof fn lemma_suspend_then_resume_rebuilds(state: Driver, fresh: Bundle)
    requires
        !state.terminal,
        state.suspend_lifecycle,
    ensures
        spec_step(state, Event::Suspended).bundle is Absent,
        spec_action(spec_step(state, Event::Suspended), Event::Resumed) == Action::Initialize,
        spec_step(spec_step(state, Event::Suspended), Event::Resumed).bundle is Absent,
        spec_install(spec_step(spec_step(state, Event::Suspended), Event::Resumed), fresh).bundle
            == BundleState::Ready(fresh),
{
}

/// A redraw request while the bundle is absent demands nothing of the GPU and
/// changes nothing.
pub proof fn lemma_redraw_without_bundle_is_noop(state: Driver)
    requires
        state.bundle is Absent,
    ensures
        spec_step(state, Event::RedrawRequested) == state,
        spec_action(state, Event::RedrawRequested) == Action::Nothing,
{
}

/// A close request makes the state terminal at once, and a terminal state
/// schedules no redraw: the loop's next step is to exit.
pub proof fn lemma_close_is_terminal(state: Driver)
    ensures
        spec_step(state, Event::CloseRequested).terminal,
        forall|elapsed_millis: u64|
            spec_schedule(spec_step(state, Event::CloseRequested), elapsed_millis) is Exit,
{
}

/// A terminal state absorbs every event: the state never changes again, no
/// action — in particular no draw — is ever demanded, and nothing but exit is
/// ever scheduled.
pub proof fn lemma_terminal_halts(state: Driver, events: Seq<Event>)
    requires
        state.terminal,
    ensures
        spec_run(state, events) == state,
        spec_actions(state, events).len() == events.len(),
        forall|i: int| 0 <= i < events.len() ==> spec_actions(state, events)[i] == Action::Nothing,
        forall|elapsed_millis: u64| spec_schedule(state, elapsed_millis) is Exit,
    decreases events.len(),
{
    lemma_actions_len(state, events);
    if events.len() > 0 {
        lemma_terminal_halts(state, events.skip(1));
        assert forall|i: int| 0 <= i < events.len() implies spec_actions(state, events)[i]
            == Action::Nothing by {
            if i > 0 {
                assert(spec_actions(state, events)[i] == spec_actions(state, events.skip(1))[i - 1]);
            }
        }
    }
}

/// No frame is submitted after the terminal transition: whatever events
/// follow a close request, none of their actions is a draw.
pub proof fn lemma_no_frame_after_close(state: Driver, events: Seq<Event>)
    ensures
        spec_actions(spec_step(state, Event::CloseRequested), events).len() == events.len(),
        forall|i: int| 0 <= i < events.len()
            ==> spec_actions(spec_step(state, Event::CloseRequested), events)[i] !is Draw,
{
    let closed = spec_step(state, Event::CloseRequested);
    lemma_close_is_terminal(state);
    lemma_terminal_halts(closed, events);
}

} // verus!
