//! What holds of every push of the Home Assistant sink.

use vstd::prelude::*;
use crate::home_assistant::api::ha_next;
use crate::home_assistant::api::is_due;
use crate::home_assistant::api::learned;
use crate::home_assistant::api::learned_keeps_control;
use crate::home_assistant::api::next_due;
use crate::home_assistant::api::publish_flag;
use crate::home_assistant::api::push_begun;
use crate::home_assistant::api::push_from;
use crate::home_assistant::api::HaApiView;
use crate::home_assistant::api::HaPhase;
use crate::teams_ws::states::Flag;
use crate::teams_ws::states::TeamsStates;
use crate::teams_ws::states::flag_at;
use crate::teams_ws::states::FLAG_COUNT;
use crate::traits::SinkActionView;
use crate::traits::SinkEvent;

verus! {

/// Whether an action is a request to Home Assistant, which a report
/// answers.
pub open spec fn is_request(action: SinkActionView) -> bool {
    action is Probe || action is FetchAttributes || action is SetState
}

/// One where the action is the state-set request for the flag, else none.
pub open spec fn written_now(sink: HaApiView, action: SinkActionView, flag: Flag) -> nat {
    if action is SetState && sink.phase is FlagPost && publish_flag(
        sink.phase->FlagPost_index as int,
    ) == flag {
        1
    } else {
        0
    }
}

/// Where a push stands in the end.
pub struct PushEnd {
    pub sink: HaApiView,
    pub states: TeamsStates,
    /// The result of the push, if it came to an end.
    pub outcome: Option<Result<(), Seq<char>>>,
}

/// Runs a push from a sink, a snapshot and the pending action: each request
/// is answered by the next of `reports`. The run stops where the push ends,
/// where the sink passes a report over, or where the reports run out.
pub open spec fn push_end(
    sink: HaApiView,
    states: TeamsStates,
    action: SinkActionView,
    reports: Seq<SinkEvent>,
) -> PushEnd
    decreases reports.len(),
{
    if action is Done {
        PushEnd { sink, states, outcome: Some(action->Done_0) }
    } else if !is_request(action) || reports.len() == 0 {
        PushEnd { sink, states, outcome: None }
    } else {
        let (after, pushed, then) = ha_next(sink, states, reports[0]);
        push_end(after, pushed, then, reports.skip(1))
    }
}

/// The number of state-set requests for a flag that a run asks for.
pub open spec fn writes_of(
    sink: HaApiView,
    states: TeamsStates,
    action: SinkActionView,
    reports: Seq<SinkEvent>,
    flag: Flag,
) -> nat
    decreases reports.len(),
{
    if !is_request(action) || reports.len() == 0 {
        written_now(sink, action, flag)
    } else {
        let (after, pushed, then) = ha_next(sink, states, reports[0]);
        written_now(sink, action, flag) + writes_of(after, pushed, then, reports.skip(1), flag)
    }
}

/// The position of a flag in the order of pushing.
pub open spec fn publish_position(flag: Flag) -> int {
    match flag {
        Flag::InMeeting => 0,
        Flag::VideoOn => 1,
        Flag::Muted => 2,
        Flag::HandRaised => 3,
        Flag::RecordingOn => 4,
        Flag::BackgroundBlurred => 5,
        Flag::Sharing => 6,
        Flag::UnreadMessages => 7,
    }
}

/// Every flag is pushed at one position, and every position pushes one
/// flag.
pub proof fn publish_order_is_a_permutation(flag: Flag, index: int)
    ensures
        0 <= publish_position(flag) < FLAG_COUNT,
        publish_flag(publish_position(flag)) == flag,
        0 <= index < FLAG_COUNT ==> publish_position(publish_flag(index)) == index,
{
}

/// `next_due` finds a flag that is due, at or after the position it starts
/// from, or no flag at all.
pub proof fn next_due_is_due(states: TeamsStates, force_update: bool, from: int)
    requires
        0 <= from,
    ensures
        from <= next_due(states, force_update, from) || next_due(states, force_update, from)
            == FLAG_COUNT,
        next_due(states, force_update, from) <= FLAG_COUNT,
        next_due(states, force_update, from) < FLAG_COUNT ==> is_due(
            states,
            force_update,
            publish_flag(next_due(states, force_update, from)),
        ),
        forall|index: int|
            from <= index < next_due(states, force_update, from) ==> !is_due(
                states,
                force_update,
                #[trigger] publish_flag(index),
            ),
    decreases FLAG_COUNT - from,
{
    if from < FLAG_COUNT && !is_due(states, force_update, publish_flag(from)) {
        next_due_is_due(states, force_update, from + 1);
    }
}

/// The pending action fits the phase of the sink: a request is the one the
/// phase awaits the report of, and a flag under way is due.
pub open spec fn fits(sink: HaApiView, states: TeamsStates, action: SinkActionView) -> bool {
    ||| action is Done
    ||| action is Nothing
    ||| match sink.phase {
        HaPhase::Idle => false,
        HaPhase::RefreshProbe => action is Probe,
        HaPhase::RefreshFetch { index } => action is FetchAttributes && index < FLAG_COUNT,
        HaPhase::FlagProbe { index } => action is Probe && index < FLAG_COUNT && is_due(
            states,
            sink.force_update,
            publish_flag(index as int),
        ),
        HaPhase::FlagPost { index } => action is SetState && index < FLAG_COUNT && is_due(
            states,
            sink.force_update,
            publish_flag(index as int),
        ),
    }
}

/// The first position of the order of pushing that a run may still push.
pub open spec fn floor(sink: HaApiView, action: SinkActionView) -> int {
    if !is_request(action) {
        FLAG_COUNT as int
    } else {
        match sink.phase {
            HaPhase::FlagProbe { index } => index as int,
            HaPhase::FlagPost { index } => index as int,
            _ => 0,
        }
    }
}

/// What holds of a run for one flag.
pub open spec fn run_holds(
    sink: HaApiView,
    states: TeamsStates,
    action: SinkActionView,
    reports: Seq<SinkEvent>,
    flag: Flag,
) -> bool {
    let writes = writes_of(sink, states, action, reports, flag);
    let end = push_end(sink, states, action, reports);
    &&& writes <= 1
    &&& writes == 1 ==> floor(sink, action) <= publish_position(flag) && is_due(
        states,
        sink.force_update,
        flag,
    )
    &&& forall|other: Flag| end.states.current(other) == states.current(other)
    &&& writes == 0 ==> end.states.previous(flag) == states.previous(flag)
    &&& writes == 1 && end.outcome is Some ==> end.states.previous(flag) == states.current(flag)
}

proof fn push_from_fits(sink: HaApiView, states: TeamsStates, from: int)
    requires
        0 <= from <= FLAG_COUNT,
    ensures
        fits(push_from(sink, states, from).0, states, push_from(sink, states, from).1),
        push_from(sink, states, from).1 is Done || push_from(sink, states, from).1 is Probe,
        push_from(sink, states, from).0.force_update == sink.force_update,
        from <= floor(push_from(sink, states, from).0, push_from(sink, states, from).1),
{
    reveal(push_from);
    next_due_is_due(states, sink.force_update, from);
}

/// The snapshot after one step of a run: the flag of a state-set request
/// that was answered counts as pushed, and nothing else changes.
pub open spec fn snapshot_after_step(
    sink: HaApiView,
    states: TeamsStates,
    action: SinkActionView,
    then: SinkActionView,
) -> TeamsStates {
    if action is SetState && !(then is Nothing) {
        let flag = publish_flag(floor(sink, action));
        states.with_previous(flag, states.current(flag))
    } else {
        states
    }
}

/// What one step of a run keeps: the action fits the phase again, the run
/// moves on in the order of pushing, and the snapshot changes as
/// `snapshot_after_step` says.
pub open spec fn step_holds(
    sink: HaApiView,
    states: TeamsStates,
    action: SinkActionView,
    report: SinkEvent,
) -> bool {
    let (after, pushed, then) = ha_next(sink, states, report);
    &&& fits(after, pushed, then)
    &&& after.force_update == sink.force_update
    &&& floor(sink, action) <= floor(after, then)
    &&& action is SetState && is_request(then) ==> floor(sink, action) < floor(after, then)
    &&& pushed == snapshot_after_step(sink, states, action, then)
}

/// Marking a flag as pushed changes what was last pushed for that flag
/// alone, and no current value.
pub proof fn marking_touches_one_flag(states: TeamsStates, flag: Flag, other: Flag)
    ensures
        states.with_previous(flag, states.current(flag)).current(other) == states.current(other),
        states.with_previous(flag, states.current(flag)).previous(other) == if other == flag {
            states.current(other)
        } else {
            states.previous(other)
        },
{
}

proof fn step_after_fetch(sink: HaApiView, states: TeamsStates, action: SinkActionView, report: SinkEvent)
    requires
        fits(sink, states, action),
        is_request(action),
        sink.phase is RefreshFetch,
    ensures
        step_holds(sink, states, action, report),
{
    let index = sink.phase->RefreshFetch_index;
    if report is Attributes {
        let informed = learned(sink, flag_at(index as int), report->Attributes_0);
        learned_keeps_control(sink, flag_at(index as int), report->Attributes_0);
        if index + 1 >= FLAG_COUNT {
            push_from_fits(HaApiView { queried_attributes: true, ..informed }, states, 0);
        }
    }
}

proof fn step_after_post(sink: HaApiView, states: TeamsStates, action: SinkActionView, report: SinkEvent)
    requires
        fits(sink, states, action),
        is_request(action),
        sink.phase is FlagPost,
    ensures
        step_holds(sink, states, action, report),
{
    let index = sink.phase->FlagPost_index;
    if report is StateSet {
        let flag = publish_flag(index as int);
        let marked = states.with_previous(flag, states.current(flag));
        push_from_fits(sink, marked, index + 1);
        assert(is_due(marked, sink.force_update, flag) ==> sink.force_update) by {
            marking_touches_one_flag(states, flag, flag);
        }
    }
}

proof fn step_after_probe(sink: HaApiView, states: TeamsStates, action: SinkActionView, report: SinkEvent)
    requires
        fits(sink, states, action),
        is_request(action),
        sink.phase is RefreshProbe || sink.phase is FlagProbe,
    ensures
        step_holds(sink, states, action, report),
{
}

proof fn step_fits(sink: HaApiView, states: TeamsStates, action: SinkActionView, report: SinkEvent)
    requires
        fits(sink, states, action),
        is_request(action),
    ensures
        step_holds(sink, states, action, report),
{
    match sink.phase {
        HaPhase::RefreshFetch { .. } => step_after_fetch(sink, states, action, report),
        HaPhase::FlagPost { .. } => step_after_post(sink, states, action, report),
        HaPhase::Idle => {},
        _ => step_after_probe(sink, states, action, report),
    }
}

/// What holds of every run of a push that is not forced, for every flag: at
/// most one state-set request is asked for it, only where the flag was
/// due; no current value changes; a flag that is not written keeps what was
/// last pushed, and one that is written has its current value as the last
/// pushed once the push has come to an end.
pub proof fn run_is_sound(
    sink: HaApiView,
    states: TeamsStates,
    action: SinkActionView,
    reports: Seq<SinkEvent>,
    flag: Flag,
)
    requires
        fits(sink, states, action),
        !sink.force_update,
    ensures
        run_holds(sink, states, action, reports, flag),
    decreases reports.len(),
{
    publish_order_is_a_permutation(flag, floor(sink, action));
    if is_request(action) && reports.len() > 0 {
        let (after, pushed, then) = ha_next(sink, states, reports[0]);
        step_fits(sink, states, action, reports[0]);
        let written = publish_flag(floor(sink, action));
        assert forall|other: Flag|
            pushed.current(other) == states.current(other) && pushed.previous(other) == (
            if action is SetState && !(then is Nothing) && other == written {
                states.current(other)
            } else {
                states.previous(other)
            }) by {
            marking_touches_one_flag(states, written, other);
        }
        run_is_sound(after, pushed, then, reports.skip(1), flag);
        publish_order_is_a_permutation(flag, floor(after, then));
        let rest = writes_of(after, pushed, then, reports.skip(1), flag);
        let end = push_end(after, pushed, then, reports.skip(1));
        assert(writes_of(sink, states, action, reports, flag) == written_now(sink, action, flag)
            + rest);
        assert(push_end(sink, states, action, reports) == end);
        if written_now(sink, action, flag) == 1 {
            assert(flag == publish_flag(floor(sink, action)));
            if then is Nothing {
                assert(rest == 0);
                assert(end.outcome is None);
            } else {
                assert(rest == 0) by {
                    if rest == 1 {
                        assert(floor(after, then) <= publish_position(flag));
                    }
                }
            }
        } else if rest == 1 {
            assert(is_due(pushed, sink.force_update, flag));
            assert(pushed.previous(flag) == states.previous(flag)) by {
                if action is SetState && flag == publish_flag(floor(sink, action)) {
                    assert(written_now(sink, action, flag) == 1);
                }
            }
        } else {
            assert(pushed.previous(flag) == states.previous(flag)) by {
                if action is SetState && flag == publish_flag(floor(sink, action)) {
                    assert(written_now(sink, action, flag) == 1);
                }
            }
        }
    }
}

/// A push is idempotent. Where a push that is not forced has come to an
/// end, a second push of the same snapshot, not forced either, asks for no
/// state-set request that the first has asked for: over both pushes each
/// flag is written at most once, whatever Home Assistant answers.
pub proof fn push_is_idempotent(
    sink: HaApiView,
    states: TeamsStates,
    first: Seq<SinkEvent>,
    second: Seq<SinkEvent>,
    flag: Flag,
)
    ensures
        ({
            let (begun, action) = push_begun(sink, states, false);
            let end = push_end(begun, states, action, first);
            let (again, repeated) = push_begun(end.sink, end.states, false);
            &&& forall|other: Flag| end.states.current(other) == states.current(other)
            &&& end.outcome is Some ==> writes_of(begun, states, action, first, flag) + writes_of(
                again,
                end.states,
                repeated,
                second,
                flag,
            ) <= 1
        }),
{
    let (begun, action) = push_begun(sink, states, false);
    begun_fits(sink, states);
    run_is_sound(begun, states, action, first, flag);
    let end = push_end(begun, states, action, first);
    let (again, repeated) = push_begun(end.sink, end.states, false);
    begun_fits(end.sink, end.states);
    run_is_sound(again, end.states, repeated, second, flag);
}

proof fn begun_fits(sink: HaApiView, states: TeamsStates)
    ensures
        fits(push_begun(sink, states, false).0, states, push_begun(sink, states, false).1),
        !push_begun(sink, states, false).0.force_update,
{
    let forced = HaApiView { force_update: false, ..sink };
    push_from_fits(forced, states, 0);
}

/// The positions of the order of pushing that a run has behind it: all of
/// them once the push has ended well, those before the flag under way
/// while it pushes, none otherwise.
pub open spec fn behind(sink: HaApiView, action: SinkActionView) -> int {
    if action == SinkActionView::Done(Ok(())) {
        FLAG_COUNT as int
    } else if action is Probe || action is SetState {
        match sink.phase {
            HaPhase::FlagProbe { index } => index as int,
            HaPhase::FlagPost { index } => index as int,
            _ => 0,
        }
    } else {
        0
    }
}

/// No flag that a run has behind it is due.
pub open spec fn settled(sink: HaApiView, states: TeamsStates, action: SinkActionView) -> bool {
    forall|index: int|
        0 <= index < behind(sink, action) && index < FLAG_COUNT ==> !is_due(
            states,
            false,
            #[trigger] publish_flag(index),
        )
}

proof fn push_from_settles(sink: HaApiView, states: TeamsStates, from: int)
    requires
        0 <= from <= FLAG_COUNT,
        !sink.force_update,
        forall|index: int| 0 <= index < from ==> !is_due(states, false, #[trigger] publish_flag(index)),
    ensures
        settled(push_from(sink, states, from).0, states, push_from(sink, states, from).1),
{
    reveal(push_from);
    next_due_is_due(states, false, from);
}

proof fn step_settles(sink: HaApiView, states: TeamsStates, action: SinkActionView, report: SinkEvent)
    requires
        fits(sink, states, action),
        is_request(action),
        !sink.force_update,
        settled(sink, states, action),
    ensures
        ({
            let (after, pushed, then) = ha_next(sink, states, report);
            settled(after, pushed, then)
        }),
{
    let (after, pushed, then) = ha_next(sink, states, report);
    step_fits(sink, states, action, report);
    match sink.phase {
        HaPhase::RefreshFetch { index } => {
            if report is Attributes && index + 1 >= FLAG_COUNT {
                let informed = learned(sink, flag_at(index as int), report->Attributes_0);
                learned_keeps_control(sink, flag_at(index as int), report->Attributes_0);
                push_from_settles(HaApiView { queried_attributes: true, ..informed }, states, 0);
            }
        },
        HaPhase::FlagPost { index } => {
            if report is StateSet {
                let flag = publish_flag(index as int);
                let marked = states.with_previous(flag, states.current(flag));
                assert forall|earlier: int| 0 <= earlier < index + 1 implies !is_due(
                    marked,
                    false,
                    #[trigger] publish_flag(earlier),
                ) by {
                    marking_touches_one_flag(states, flag, publish_flag(earlier));
                }
                push_from_settles(sink, marked, index + 1);
            }
        },
        _ => {},
    }
}

/// A push that ended well leaves nothing due: every flag's current value
/// is then the last pushed, so that a second push of the same snapshot,
/// not forced, finds no flag to write.
pub proof fn finished_push_leaves_nothing_due(
    sink: HaApiView,
    states: TeamsStates,
    reports: Seq<SinkEvent>,
    flag: Flag,
)
    ensures
        ({
            let (begun, action) = push_begun(sink, states, false);
            let end = push_end(begun, states, action, reports);
            end.outcome == Some(Ok::<(), Seq<char>>(())) ==> !is_due(end.states, false, flag)
        }),
{
    let (begun, action) = push_begun(sink, states, false);
    begun_fits(sink, states);
    let forced = HaApiView { force_update: false, ..sink };
    if sink.queried_attributes {
        push_from_settles(forced, states, 0);
    }
    run_settles(begun, states, action, reports);
    let end = push_end(begun, states, action, reports);
    if end.outcome == Some(Ok::<(), Seq<char>>(())) {
        publish_order_is_a_permutation(flag, 0);
        assert(!is_due(end.states, false, publish_flag(publish_position(flag))));
    }
}

proof fn run_settles(sink: HaApiView, states: TeamsStates, action: SinkActionView, reports: Seq<SinkEvent>)
    requires
        fits(sink, states, action),
        !sink.force_update,
        settled(sink, states, action),
    ensures
        ({
            let end = push_end(sink, states, action, reports);
            end.outcome == Some(Ok::<(), Seq<char>>(())) ==> forall|index: int|
                0 <= index < FLAG_COUNT ==> !is_due(end.states, false, #[trigger] publish_flag(index))
        }),
    decreases reports.len(),
{
    if action is Done {
    } else if is_request(action) && reports.len() > 0 {
        let (after, pushed, then) = ha_next(sink, states, reports[0]);
        step_fits(sink, states, action, reports[0]);
        step_settles(sink, states, action, reports[0]);
        run_settles(after, pushed, then, reports.skip(1));
    }
}

} // verus!

