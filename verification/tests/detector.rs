use teams_status::teams_ws::detector::apply;
use teams_status::teams_ws::detector::apply_update;
use teams_status::teams_ws::detector::update_value;
use teams_status::teams_ws::events::decode;
use teams_status::teams_ws::events::MeetingState;
use teams_status::teams_ws::events::UpstreamEvent;
use teams_status::teams_ws::states::Flag;
use teams_status::teams_ws::states::FlagSet;
use teams_status::teams_ws::states::TeamsStates;

const ALL: [Flag; 8] = [
    Flag::Muted,
    Flag::VideoOn,
    Flag::HandRaised,
    Flag::InMeeting,
    Flag::RecordingOn,
    Flag::BackgroundBlurred,
    Flag::Sharing,
    Flag::UnreadMessages,
];

#[test]
fn new_snapshot_is_all_off() {
    let states = TeamsStates::new();
    for flag in ALL {
        assert!(!states.get(flag));
        assert!(!states.get_previous(flag));
    }
}

#[test]
fn flags_have_their_positions() {
    for (position, flag) in ALL.iter().enumerate() {
        assert_eq!(flag.index(), position);
        assert_eq!(Flag::from_index(position), *flag);
    }
}

#[test]
fn swap_returns_the_old_value() {
    let mut states = TeamsStates::new();
    assert!(!states.swap(Flag::Sharing, true));
    assert!(states.is_sharing);
    assert!(states.swap(Flag::Sharing, true));
    assert!(states.swap(Flag::Sharing, false));
    assert!(!states.is_sharing);
    assert!(!states.prev_is_sharing);
}

#[test]
fn mark_pushed_copies_the_current_value() {
    let mut states = TeamsStates::new();
    states.swap(Flag::Muted, true);
    states.mark_pushed(Flag::Muted);
    assert!(states.prev_is_muted);
    assert!(!states.prev_is_video_on);
    states.swap(Flag::Muted, false);
    assert!(states.prev_is_muted);
    states.mark_pushed(Flag::Muted);
    assert!(!states.prev_is_muted);
}

#[test]
fn update_value_says_whether_the_flag_changed() {
    let mut states = TeamsStates::new();
    assert!(update_value(&mut states, Flag::InMeeting, true));
    assert!(!update_value(&mut states, Flag::InMeeting, true));
    assert!(update_value(&mut states, Flag::InMeeting, false));
    assert!(!update_value(&mut states, Flag::VideoOn, false));
}

#[test]
fn flag_set_counts_its_members() {
    let mut set = FlagSet::empty();
    assert!(set.is_empty());
    assert_eq!(set.len(), 0);
    set.insert(Flag::Sharing);
    set.insert(Flag::Muted);
    set.insert(Flag::Sharing);
    assert!(!set.is_empty());
    assert_eq!(set.len(), 2);
    assert!(set.has(Flag::Sharing));
    assert!(set.has(Flag::Muted));
    assert!(!set.has(Flag::VideoOn));
}

#[test]
fn apply_update_overwrites_every_flag() {
    let mut states = TeamsStates::new();
    states.is_sharing = true;
    states.is_muted = true;
    states.prev_is_sharing = true;
    let mut update = MeetingState::silent();
    update.is_muted = Some(true);
    update.is_video_on = Some(true);
    let changed = apply_update(&mut states, &update);
    assert!(states.is_muted);
    assert!(states.is_video_on);
    assert!(!states.is_sharing);
    assert!(states.prev_is_sharing);
    assert_eq!(changed.len(), 2);
    assert!(changed.has(Flag::VideoOn));
    assert!(changed.has(Flag::Sharing));
    assert!(!changed.has(Flag::Muted));
}

#[test]
fn snapshot_equals_the_update_whatever_it_held() {
    let raw = "{\"meetingUpdate\":{\"meetingState\":{\"isMuted\":true,\"isRecordingOn\":false}}}";
    for start in 0..256u32 {
        let mut states = TeamsStates::new();
        for (position, flag) in ALL.iter().enumerate() {
            states.swap(*flag, start & (1 << position) != 0);
        }
        let before = states;
        let mut force_update = false;
        let found = apply(&mut states, &mut force_update, &decode(raw));
        for flag in ALL {
            assert_eq!(states.get(flag), flag == Flag::Muted);
            assert_eq!(states.get_previous(flag), before.get_previous(flag));
            assert_eq!(found.changed.has(flag), before.get(flag) != states.get(flag));
        }
        assert_eq!(found.should_dispatch, !found.changed.is_empty());
        assert!(!found.force_update);
    }
}

#[test]
fn first_update_is_forced_later_ones_are_not() {
    let first = "{\"meetingUpdate\":{\"meetingState\":{\"isInMeeting\":true,\"isVideoOn\":false}}}";
    let third = "{\"meetingUpdate\":{\"meetingState\":{\"isInMeeting\":true,\"isVideoOn\":true}}}";
    let mut states = TeamsStates::new();
    let mut force_update = true;

    let found = apply(&mut states, &mut force_update, &decode(first));
    assert!(found.should_dispatch);
    assert!(found.force_update);
    assert!(!force_update);
    assert!(states.is_in_meeting);
    assert!(!states.is_video_on);
    assert!(!states.is_muted);
    assert_eq!(found.changed.len(), 1);
    assert!(found.changed.has(Flag::InMeeting));

    let found = apply(&mut states, &mut force_update, &decode(first));
    assert!(!found.should_dispatch);
    assert!(!found.force_update);
    assert!(found.changed.is_empty());
    assert!(!force_update);

    let found = apply(&mut states, &mut force_update, &decode(third));
    assert!(found.should_dispatch);
    assert!(!found.force_update);
    assert_eq!(found.changed.len(), 1);
    assert!(found.changed.has(Flag::VideoOn));
    assert!(states.is_video_on);
    assert!(states.is_in_meeting);
}

#[test]
fn forced_update_without_change_is_dispatched() {
    let mut states = TeamsStates::new();
    let mut force_update = true;
    let found = apply(&mut states, &mut force_update, &decode("{\"meetingUpdate\":{}}"));
    assert!(found.should_dispatch);
    assert!(found.force_update);
    assert!(found.changed.is_empty());
    assert!(!force_update);
}

#[test]
fn token_refresh_touches_nothing() {
    let mut states = TeamsStates::new();
    states.is_muted = true;
    let before = states;
    let mut force_update = true;
    let found = apply(&mut states, &mut force_update, &decode("{\"tokenRefresh\":\"abc123\"}"));
    assert!(!found.should_dispatch);
    assert!(!found.force_update);
    assert!(found.changed.is_empty());
    assert_eq!(found.token.as_deref(), Some("abc123"));
    assert_eq!(states, before);
    assert!(force_update);
}

#[test]
fn unknown_event_touches_nothing() {
    let mut states = TeamsStates::new();
    states.is_video_on = true;
    let before = states;
    let mut force_update = true;
    let found = apply(&mut states, &mut force_update, &UpstreamEvent::Unknown);
    assert!(!found.should_dispatch);
    assert!(found.changed.is_empty());
    assert_eq!(found.token, None);
    assert_eq!(states, before);
    assert!(force_update);
}
