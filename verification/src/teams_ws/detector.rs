//! Change detection: what an upstream event does to the presence snapshot,
//! and whether the sink has to hear of it.

use vstd::prelude::*;
use crate::teams_ws::events::MeetingState;
use crate::teams_ws::events::UpstreamEvent;
use crate::teams_ws::events::UpstreamEventView;
use crate::teams_ws::states::Flag;
use crate::teams_ws::states::FlagSet;
use crate::teams_ws::states::TeamsStates;
use crate::utils::option_text;

verus! {

/// The snapshot after a meeting update: every flag has the update's value,
/// and what was last pushed downstream stays.
pub open spec fn overwritten(states: TeamsStates, update: MeetingState) -> TeamsStates {
    TeamsStates {
        is_muted: update.value(Flag::Muted),
        is_video_on: update.value(Flag::VideoOn),
        is_hand_raised: update.value(Flag::HandRaised),
        is_in_meeting: update.value(Flag::InMeeting),
        is_recording_on: update.value(Flag::RecordingOn),
        is_background_blurred: update.value(Flag::BackgroundBlurred),
        is_sharing: update.value(Flag::Sharing),
        has_unread_messages: update.value(Flag::UnreadMessages),
        ..states
    }
}

/// The snapshot after an event. Only a meeting update touches it.
pub open spec fn snapshot_after(states: TeamsStates, event: UpstreamEventView) -> TeamsStates {
    match event {
        UpstreamEventView::MeetingUpdate(update) => overwritten(states, update),
        _ => states,
    }
}

/// Whether an event changes a flag of the snapshot.
pub open spec fn changes(states: TeamsStates, event: UpstreamEventView, flag: Flag) -> bool {
    match event {
        UpstreamEventView::MeetingUpdate(update) => states.current(flag) != update.value(flag),
        _ => false,
    }
}

/// Whether an event is to be dispatched to the sink: a meeting update that
/// changes a flag, or one that meets the pending resync.
pub open spec fn dispatch_due(states: TeamsStates, force_update: bool, event: UpstreamEventView) -> bool {
    event is MeetingUpdate && (force_update || !changed_flags(states, event).vacant())
}

/// The resync bit after an event: a meeting update consumes it.
pub open spec fn force_after(force_update: bool, event: UpstreamEventView) -> bool {
    force_update && !(event is MeetingUpdate)
}

/// The token that an event asks to persist.
pub open spec fn token_of(event: UpstreamEventView) -> Option<Seq<char>> {
    match event {
        UpstreamEventView::TokenRefresh { token } => Some(token),
        _ => None,
    }
}

/// What the detector found in one event.
pub struct Detection {
    /// The flags whose value the event changed.
    pub changed: FlagSet,
    /// Whether the sink has to be told.
    pub should_dispatch: bool,
    /// The resync bit as the event met it; the sink is told with it.
    pub force_update: bool,
    /// A new API token that the configuration has to persist.
    pub token: Option<String>,
}

/// The flags that a meeting update changes in a snapshot.
pub open spec fn changed_by(states: TeamsStates, update: MeetingState) -> FlagSet {
    FlagSet {
        muted: states.is_muted != update.value(Flag::Muted),
        video_on: states.is_video_on != update.value(Flag::VideoOn),
        hand_raised: states.is_hand_raised != update.value(Flag::HandRaised),
        in_meeting: states.is_in_meeting != update.value(Flag::InMeeting),
        recording_on: states.is_recording_on != update.value(Flag::RecordingOn),
        background_blurred: states.is_background_blurred != update.value(Flag::BackgroundBlurred),
        sharing: states.is_sharing != update.value(Flag::Sharing),
        unread_messages: states.has_unread_messages != update.value(Flag::UnreadMessages),
    }
}

/// The flags that an event changes in a snapshot.
pub open spec fn changed_flags(states: TeamsStates, event: UpstreamEventView) -> FlagSet {
    match event {
        UpstreamEventView::MeetingUpdate(update) => changed_by(states, update),
        _ => FlagSet::none(),
    }
}

/// `changed_by` holds the flags whose value differs, and `overwritten`
/// gives every flag the update's value and keeps what was last pushed.
pub proof fn update_by_flag(states: TeamsStates, update: MeetingState, flag: Flag)
    ensures
        changed_by(states, update).contains(flag) == (states.current(flag) != update.value(flag)),
        overwritten(states, update).current(flag) == update.value(flag),
        overwritten(states, update).previous(flag) == states.previous(flag),
{
}

/// A meeting update is dispatched exactly when it changes a flag or meets
/// the pending resync; no other event is dispatched.
pub proof fn dispatch_when_changed_or_forced(
    states: TeamsStates,
    force_update: bool,
    event: UpstreamEventView,
)
    ensures
        event is MeetingUpdate ==> dispatch_due(states, force_update, event) == (force_update
            || exists|flag: Flag| changes(states, event, flag)),
        !(event is MeetingUpdate) ==> !dispatch_due(states, force_update, event),
        forall|flag: Flag| changed_flags(states, event).contains(flag) == changes(states, event, flag),
{
    assert forall|flag: Flag| changed_flags(states, event).contains(flag) == changes(
        states,
        event,
        flag,
    ) by {
        if let UpstreamEventView::MeetingUpdate(update) = event {
            update_by_flag(states, update, flag);
        }
    }
    crate::teams_ws::states::vacant_is_empty(changed_flags(states, event));
    if !changed_flags(states, event).vacant() {
        let flag = choose|flag: Flag| changed_flags(states, event).contains(flag);
        assert(changes(states, event, flag));
    }
}

/// After a meeting update every flag has the value the update reported for
/// it, off where it reported none, and what was last pushed is as before.
pub proof fn snapshot_equals_update(states: TeamsStates, update: MeetingState)
    ensures
        forall|flag: Flag|
            #![trigger snapshot_after(states, UpstreamEventView::MeetingUpdate(update)).current(flag)]
            snapshot_after(states, UpstreamEventView::MeetingUpdate(update)).current(flag) == (
            match update.reported(flag) {
                Some(value) => value,
                None => false,
            }),
        forall|flag: Flag|
            #![trigger snapshot_after(states, UpstreamEventView::MeetingUpdate(update)).previous(flag)]
            snapshot_after(states, UpstreamEventView::MeetingUpdate(update)).previous(flag)
                == states.previous(flag),
{
    assert forall|flag: Flag|
        #![trigger snapshot_after(states, UpstreamEventView::MeetingUpdate(update)).current(flag)]
        snapshot_after(states, UpstreamEventView::MeetingUpdate(update)).current(flag)
            == update.value(flag) && snapshot_after(
            states,
            UpstreamEventView::MeetingUpdate(update),
        ).previous(flag) == states.previous(flag) by {
        update_by_flag(states, update, flag);
    }
}

/// Stores a new value for a flag and says whether it differs from the value
/// the flag had.
pub fn update_value(states: &mut TeamsStates, flag: Flag, new_value: bool) -> (has_changed: bool)
    ensures
        has_changed == (old(states).current(flag) != new_value),
        *final(states) == old(states).with_current(flag, new_value),
{
    states.swap(flag, new_value) != new_value
}

/// Overwrites the snapshot with a meeting update and returns the flags that
/// changed.
pub fn apply_update(states: &mut TeamsStates, update: &MeetingState) -> (changed: FlagSet)
    ensures
        *final(states) == overwritten(*old(states), *update),
        changed == changed_by(*old(states), *update),
{
    let before = *states;
    let after = TeamsStates {
        is_muted: update.value_of(Flag::Muted),
        is_video_on: update.value_of(Flag::VideoOn),
        is_hand_raised: update.value_of(Flag::HandRaised),
        is_in_meeting: update.value_of(Flag::InMeeting),
        is_recording_on: update.value_of(Flag::RecordingOn),
        is_background_blurred: update.value_of(Flag::BackgroundBlurred),
        is_sharing: update.value_of(Flag::Sharing),
        has_unread_messages: update.value_of(Flag::UnreadMessages),
        ..before
    };
    *states = after;
    FlagSet {
        muted: before.is_muted != after.is_muted,
        video_on: before.is_video_on != after.is_video_on,
        hand_raised: before.is_hand_raised != after.is_hand_raised,
        in_meeting: before.is_in_meeting != after.is_in_meeting,
        recording_on: before.is_recording_on != after.is_recording_on,
        background_blurred: before.is_background_blurred != after.is_background_blurred,
        sharing: before.is_sharing != after.is_sharing,
        unread_messages: before.has_unread_messages != after.has_unread_messages,
    }
}

/// Applies an event to the snapshot.
///
/// A meeting update overwrites every flag with the update's value, off
/// where the update does not report the flag, and consumes the resync bit.
/// It is due for dispatch if it changed a flag or met the resync bit. A
/// token refresh and an unknown event leave snapshot and resync bit alone
/// and are never dispatched.
pub fn apply(states: &mut TeamsStates, force_update: &mut bool, event: &UpstreamEvent) -> (found: Detection)
    ensures
        *final(states) == snapshot_after(*old(states), event@),
        *final(force_update) == force_after(*old(force_update), event@),
        found.changed == changed_flags(*old(states), event@),
        found.should_dispatch == dispatch_due(*old(states), *old(force_update), event@),
        found.force_update == (event@ is MeetingUpdate && *old(force_update)),
        option_text(found.token) == token_of(event@),
{
    match event {
        UpstreamEvent::MeetingUpdate(update) => {
            let changed = apply_update(states, update);
            let forced = *force_update;
            *force_update = false;
            let quiet = changed.is_empty();
            Detection { changed, should_dispatch: forced || !quiet, force_update: forced, token: None }
        },
        UpstreamEvent::TokenRefresh { token } => {
            let changed = FlagSet::empty();
            Detection {
                changed,
                should_dispatch: false,
                force_update: false,
                token: Some(token.clone()),
            }
        },
        UpstreamEvent::Unknown => {
            let changed = FlagSet::empty();
            Detection { changed, should_dispatch: false, force_update: false, token: None }
        },
    }
}

/// The resync bit after a run of events.
pub open spec fn force_after_all(force_update: bool, events: Seq<UpstreamEventView>) -> bool
    decreases events.len(),
{
    if events.len() == 0 {
        force_update
    } else {
        force_after(force_after_all(force_update, events.drop_last()), events.last())
    }
}

/// The snapshot after a run of events.
pub open spec fn snapshot_after_all(states: TeamsStates, events: Seq<UpstreamEventView>) -> TeamsStates
    decreases events.len(),
{
    if events.len() == 0 {
        states
    } else {
        snapshot_after(snapshot_after_all(states, events.drop_last()), events.last())
    }
}

/// The resync bit is consumed once: after a run of events it is still set
/// only if it was set at the start and no meeting update has come by. So
/// the first meeting update of a session meets it, and no later event does.
pub proof fn force_consumed_once(force_update: bool, events: Seq<UpstreamEventView>)
    ensures
        force_after_all(force_update, events) == (force_update && forall|index: int|
            0 <= index < events.len() ==> !(#[trigger] events[index] is MeetingUpdate)),
    decreases events.len(),
{
    if events.len() > 0 {
        let earlier = events.drop_last();
        force_consumed_once(force_update, earlier);
        if force_after_all(force_update, events) {
            assert forall|index: int| 0 <= index < events.len() implies !(#[trigger] events[index]
                is MeetingUpdate) by {
                if index < earlier.len() {
                    assert(earlier[index] == events[index]);
                }
            }
        } else if force_update {
            if forall|index: int| 0 <= index < earlier.len() ==> !(#[trigger] earlier[index]
                is MeetingUpdate) {
                assert(events[events.len() - 1] is MeetingUpdate);
            } else {
                let index = choose|index: int| 0 <= index < earlier.len() && (
                #[trigger] earlier[index] is MeetingUpdate);
                assert(events[index] == earlier[index]);
            }
        }
    }
}

/// After a run of events the snapshot shows the last meeting update alone:
/// each flag has the value that update gave it, whatever came before and
/// whatever other events followed.
pub proof fn snapshot_is_last_update(states: TeamsStates, events: Seq<UpstreamEventView>, last: int)
    requires
        0 <= last < events.len(),
        events[last] is MeetingUpdate,
        forall|index: int| last < index < events.len() ==> !(#[trigger] events[index] is MeetingUpdate),
    ensures
        forall|flag: Flag|
            snapshot_after_all(states, events).current(flag) == events[last]->MeetingUpdate_0.value(flag),
        forall|flag: Flag|
            snapshot_after_all(states, events).previous(flag) == states.previous(flag),
    decreases events.len(),
{
    let earlier = events.drop_last();
    let reached = snapshot_after_all(states, earlier);
    assert(snapshot_after_all(states, events) == snapshot_after(reached, events.last()));
    if last == events.len() - 1 {
        previous_is_kept(states, earlier);
        let update = events[last]->MeetingUpdate_0;
        assert(snapshot_after_all(states, events) == overwritten(reached, update));
    } else {
        assert(snapshot_after_all(states, events) == reached);
        assert(!(events[events.len() - 1] is MeetingUpdate));
        assert(earlier[last] == events[last]);
        assert forall|index: int| last < index < earlier.len() implies !(#[trigger] earlier[index]
            is MeetingUpdate) by {
            assert(earlier[index] == events[index]);
        }
        snapshot_is_last_update(states, earlier, last);
    }
}

/// No event touches what was last pushed downstream.
pub proof fn previous_is_kept(states: TeamsStates, events: Seq<UpstreamEventView>)
    ensures
        forall|flag: Flag| snapshot_after_all(states, events).previous(flag) == states.previous(flag),
    decreases events.len(),
{
    if events.len() > 0 {
        previous_is_kept(states, events.drop_last());
    }
}

} // verus!
