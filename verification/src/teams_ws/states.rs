//! The presence snapshot: eight named flags, each with its current value and
//! the value that was last pushed downstream.

use vstd::prelude::*;

verus! {

/// One of the presence flags that the meeting client reports.
#[derive(Clone, Copy, Debug, PartialEq, Eq, Structural)]
pub enum Flag {
    Muted,
    VideoOn,
    HandRaised,
    InMeeting,
    RecordingOn,
    BackgroundBlurred,
    Sharing,
    UnreadMessages,
}

/// Number of presence flags.
pub const FLAG_COUNT: usize = 8;

/// The flags in the order in which the snapshot lists them.
pub open spec fn flag_at(index: int) -> Flag {
    if index == 0 {
        Flag::Muted
    } else if index == 1 {
        Flag::VideoOn
    } else if index == 2 {
        Flag::HandRaised
    } else if index == 3 {
        Flag::InMeeting
    } else if index == 4 {
        Flag::RecordingOn
    } else if index == 5 {
        Flag::BackgroundBlurred
    } else if index == 6 {
        Flag::Sharing
    } else {
        Flag::UnreadMessages
    }
}

impl Flag {
    /// Position of the flag in the snapshot's order.
    pub open spec fn position(self) -> int {
        match self {
            Flag::Muted => 0,
            Flag::VideoOn => 1,
            Flag::HandRaised => 2,
            Flag::InMeeting => 3,
            Flag::RecordingOn => 4,
            Flag::BackgroundBlurred => 5,
            Flag::Sharing => 6,
            Flag::UnreadMessages => 7,
        }
    }

    /// Position of the flag in the snapshot's order.
    pub fn index(self) -> (index: usize)
        ensures
            index == self.position(),
            index < FLAG_COUNT,
            flag_at(index as int) == self,
    {
        match self {
            Flag::Muted => 0,
            Flag::VideoOn => 1,
            Flag::HandRaised => 2,
            Flag::InMeeting => 3,
            Flag::RecordingOn => 4,
            Flag::BackgroundBlurred => 5,
            Flag::Sharing => 6,
            Flag::UnreadMessages => 7,
        }
    }

    /// The flag at a position of the snapshot's order; the last flag for
    /// a position beyond it.
    pub fn from_index(index: usize) -> (flag: Flag)
        ensures
            flag == flag_at(index as int),
            index < FLAG_COUNT ==> flag.position() == index,
    {
        if index == 0 {
            Flag::Muted
        } else if index == 1 {
            Flag::VideoOn
        } else if index == 2 {
            Flag::HandRaised
        } else if index == 3 {
            Flag::InMeeting
        } else if index == 4 {
            Flag::RecordingOn
        } else if index == 5 {
            Flag::BackgroundBlurred
        } else if index == 6 {
            Flag::Sharing
        } else {
            Flag::UnreadMessages
        }
    }
}

/// Current and last-pushed value of every presence flag.
#[derive(Clone, Copy, Debug, PartialEq, Eq, Structural)]
pub struct TeamsStates {
    pub is_muted: bool,
    pub prev_is_muted: bool,
    pub is_video_on: bool,
    pub prev_is_video_on: bool,
    pub is_hand_raised: bool,
    pub prev_is_hand_raised: bool,
    pub is_in_meeting: bool,
    pub prev_is_in_meeting: bool,
    pub is_recording_on: bool,
    pub prev_is_recording_on: bool,
    pub is_background_blurred: bool,
    pub prev_is_background_blurred: bool,
    pub is_sharing: bool,
    pub prev_is_sharing: bool,
    pub has_unread_messages: bool,
    pub prev_has_unread_messages: bool,
}

impl TeamsStates {
    /// Current value of a flag.
    pub open spec fn current(self, flag: Flag) -> bool {
        match flag {
            Flag::Muted => self.is_muted,
            Flag::VideoOn => self.is_video_on,
            Flag::HandRaised => self.is_hand_raised,
            Flag::InMeeting => self.is_in_meeting,
            Flag::RecordingOn => self.is_recording_on,
            Flag::BackgroundBlurred => self.is_background_blurred,
            Flag::Sharing => self.is_sharing,
            Flag::UnreadMessages => self.has_unread_messages,
        }
    }

    /// Value of a flag that was last pushed downstream.
    pub open spec fn previous(self, flag: Flag) -> bool {
        match flag {
            Flag::Muted => self.prev_is_muted,
            Flag::VideoOn => self.prev_is_video_on,
            Flag::HandRaised => self.prev_is_hand_raised,
            Flag::InMeeting => self.prev_is_in_meeting,
            Flag::RecordingOn => self.prev_is_recording_on,
            Flag::BackgroundBlurred => self.prev_is_background_blurred,
            Flag::Sharing => self.prev_is_sharing,
            Flag::UnreadMessages => self.prev_has_unread_messages,
        }
    }

    /// The snapshot with the current value of one flag replaced.
    pub open spec fn with_current(self, flag: Flag, value: bool) -> TeamsStates {
        match flag {
            Flag::Muted => TeamsStates { is_muted: value, ..self },
            Flag::VideoOn => TeamsStates { is_video_on: value, ..self },
            Flag::HandRaised => TeamsStates { is_hand_raised: value, ..self },
            Flag::InMeeting => TeamsStates { is_in_meeting: value, ..self },
            Flag::RecordingOn => TeamsStates { is_recording_on: value, ..self },
            Flag::BackgroundBlurred => TeamsStates { is_background_blurred: value, ..self },
            Flag::Sharing => TeamsStates { is_sharing: value, ..self },
            Flag::UnreadMessages => TeamsStates { has_unread_messages: value, ..self },
        }
    }

    /// The snapshot with the last-pushed value of one flag replaced.
    pub open spec fn with_previous(self, flag: Flag, value: bool) -> TeamsStates {
        match flag {
            Flag::Muted => TeamsStates { prev_is_muted: value, ..self },
            Flag::VideoOn => TeamsStates { prev_is_video_on: value, ..self },
            Flag::HandRaised => TeamsStates { prev_is_hand_raised: value, ..self },
            Flag::InMeeting => TeamsStates { prev_is_in_meeting: value, ..self },
            Flag::RecordingOn => TeamsStates { prev_is_recording_on: value, ..self },
            Flag::BackgroundBlurred => TeamsStates { prev_is_background_blurred: value, ..self },
            Flag::Sharing => TeamsStates { prev_is_sharing: value, ..self },
            Flag::UnreadMessages => TeamsStates { prev_has_unread_messages: value, ..self },
        }
    }

    /// The snapshot of a fresh session: every flag off, nothing pushed yet.
    pub open spec fn initial() -> TeamsStates {
        TeamsStates {
            is_muted: false,
            prev_is_muted: false,
            is_video_on: false,
            prev_is_video_on: false,
            is_hand_raised: false,
            prev_is_hand_raised: false,
            is_in_meeting: false,
            prev_is_in_meeting: false,
            is_recording_on: false,
            prev_is_recording_on: false,
            is_background_blurred: false,
            prev_is_background_blurred: false,
            is_sharing: false,
            prev_is_sharing: false,
            has_unread_messages: false,
            prev_has_unread_messages: false,
        }
    }

    /// A snapshot with every flag off.
    pub fn new() -> (states: TeamsStates)
        ensures
            states == TeamsStates::initial(),
    {
        TeamsStates {
            is_muted: false,
            prev_is_muted: false,
            is_video_on: false,
            prev_is_video_on: false,
            is_hand_raised: false,
            prev_is_hand_raised: false,
            is_in_meeting: false,
            prev_is_in_meeting: false,
            is_recording_on: false,
            prev_is_recording_on: false,
            is_background_blurred: false,
            prev_is_background_blurred: false,
            is_sharing: false,
            prev_is_sharing: false,
            has_unread_messages: false,
            prev_has_unread_messages: false,
        }
    }

    /// Reads the current value of a flag.
    pub fn get(&self, flag: Flag) -> (value: bool)
        ensures
            value == self.current(flag),
    {
        match flag {
            Flag::Muted => self.is_muted,
            Flag::VideoOn => self.is_video_on,
            Flag::HandRaised => self.is_hand_raised,
            Flag::InMeeting => self.is_in_meeting,
            Flag::RecordingOn => self.is_recording_on,
            Flag::BackgroundBlurred => self.is_background_blurred,
            Flag::Sharing => self.is_sharing,
            Flag::UnreadMessages => self.has_unread_messages,
        }
    }

    /// Reads the value of a flag that was last pushed downstream.
    pub fn get_previous(&self, flag: Flag) -> (value: bool)
        ensures
            value == self.previous(flag),
    {
        match flag {
            Flag::Muted => self.prev_is_muted,
            Flag::VideoOn => self.prev_is_video_on,
            Flag::HandRaised => self.prev_is_hand_raised,
            Flag::InMeeting => self.prev_is_in_meeting,
            Flag::RecordingOn => self.prev_is_recording_on,
            Flag::BackgroundBlurred => self.prev_is_background_blurred,
            Flag::Sharing => self.prev_is_sharing,
            Flag::UnreadMessages => self.prev_has_unread_messages,
        }
    }

    /// Stores a new current value for a flag and returns the value it had.
    pub fn swap(&mut self, flag: Flag, value: bool) -> (before: bool)
        ensures
            before == old(self).current(flag),
            *final(self) == old(self).with_current(flag, value),
    {
        let before = self.get(flag);
        let states = *self;
        *self = match flag {
            Flag::Muted => TeamsStates { is_muted: value, ..states },
            Flag::VideoOn => TeamsStates { is_video_on: value, ..states },
            Flag::HandRaised => TeamsStates { is_hand_raised: value, ..states },
            Flag::InMeeting => TeamsStates { is_in_meeting: value, ..states },
            Flag::RecordingOn => TeamsStates { is_recording_on: value, ..states },
            Flag::BackgroundBlurred => TeamsStates { is_background_blurred: value, ..states },
            Flag::Sharing => TeamsStates { is_sharing: value, ..states },
            Flag::UnreadMessages => TeamsStates { has_unread_messages: value, ..states },
        };
        before
    }

    /// Records that the current value of a flag has been pushed downstream.
    pub fn mark_pushed(&mut self, flag: Flag)
        ensures
            *final(self) == old(self).with_previous(flag, old(self).current(flag)),
    {
        let value = self.get(flag);
        let states = *self;
        *self = match flag {
            Flag::Muted => TeamsStates { prev_is_muted: value, ..states },
            Flag::VideoOn => TeamsStates { prev_is_video_on: value, ..states },
            Flag::HandRaised => TeamsStates { prev_is_hand_raised: value, ..states },
            Flag::InMeeting => TeamsStates { prev_is_in_meeting: value, ..states },
            Flag::RecordingOn => TeamsStates { prev_is_recording_on: value, ..states },
            Flag::BackgroundBlurred => TeamsStates { prev_is_background_blurred: value, ..states },
            Flag::Sharing => TeamsStates { prev_is_sharing: value, ..states },
            Flag::UnreadMessages => TeamsStates { prev_has_unread_messages: value, ..states },
        };
    }
}

/// What a member adds to the size of a set: one if it is there.
#[verifier::opaque]
pub open spec fn weight(member: bool) -> nat {
    if member {
        1
    } else {
        0
    }
}

/// A member counts for one, an absent flag for nothing.
pub proof fn weight_is_membership(member: bool)
    ensures
        weight(member) == if member {
            1nat
        } else {
            0nat
        },
{
    reveal(weight);
}

/// A set is vacant exactly when no flag is a member, and exactly when its
/// size is zero.
pub proof fn vacant_is_empty(set: FlagSet)
    ensures
        set.vacant() == (forall|flag: Flag| !set.contains(flag)),
        set.vacant() == (set.size() == 0),
{
    weight_is_membership(true);
    weight_is_membership(false);
    if !set.vacant() {
        let witness = if set.muted {
            Flag::Muted
        } else if set.video_on {
            Flag::VideoOn
        } else if set.hand_raised {
            Flag::HandRaised
        } else if set.in_meeting {
            Flag::InMeeting
        } else if set.recording_on {
            Flag::RecordingOn
        } else if set.background_blurred {
            Flag::BackgroundBlurred
        } else if set.sharing {
            Flag::Sharing
        } else {
            Flag::UnreadMessages
        };
        assert(set.contains(witness));
    } else {
        assert forall|flag: Flag| !set.contains(flag) by {
        }
    }
}

fn unit(member: bool) -> (count: usize)
    ensures
        count == weight(member),
        count <= 1,
{
    reveal(weight);
    if member {
        1
    } else {
        0
    }
}

fn tally(
    first: bool,
    second: bool,
    third: bool,
    fourth: bool,
    fifth: bool,
    sixth: bool,
    seventh: bool,
    eighth: bool,
) -> (count: usize)
    ensures
        count == weight(first) + weight(second) + weight(third) + weight(fourth) + weight(fifth)
            + weight(sixth) + weight(seventh) + weight(eighth),
        count <= 8,
{
    let one = unit(first);
    let two = one + unit(second);
    let three = two + unit(third);
    let four = three + unit(fourth);
    let five = four + unit(fifth);
    let six = five + unit(sixth);
    let seven = six + unit(seventh);
    seven + unit(eighth)
}

/// A set of presence flags.
#[derive(Clone, Copy, Debug, PartialEq, Eq, Structural)]
pub struct FlagSet {
    pub muted: bool,
    pub video_on: bool,
    pub hand_raised: bool,
    pub in_meeting: bool,
    pub recording_on: bool,
    pub background_blurred: bool,
    pub sharing: bool,
    pub unread_messages: bool,
}

impl View for FlagSet {
    type V = Set<Flag>;

    open spec fn view(&self) -> Set<Flag> {
        Set::new(|flag: Flag| self.contains(flag))
    }
}

impl FlagSet {
    /// Whether the flag is a member.
    pub open spec fn contains(self, flag: Flag) -> bool {
        match flag {
            Flag::Muted => self.muted,
            Flag::VideoOn => self.video_on,
            Flag::HandRaised => self.hand_raised,
            Flag::InMeeting => self.in_meeting,
            Flag::RecordingOn => self.recording_on,
            Flag::BackgroundBlurred => self.background_blurred,
            Flag::Sharing => self.sharing,
            Flag::UnreadMessages => self.unread_messages,
        }
    }

    /// Whether the set has no member.
    pub open spec fn vacant(self) -> bool {
        !(self.muted || self.video_on || self.hand_raised || self.in_meeting || self.recording_on
            || self.background_blurred || self.sharing || self.unread_messages)
    }

    /// Number of members.
    pub open spec fn size(self) -> nat {
        weight(self.muted) + weight(self.video_on) + weight(self.hand_raised) + weight(
            self.in_meeting,
        ) + weight(self.recording_on) + weight(self.background_blurred) + weight(self.sharing)
            + weight(self.unread_messages)
    }

    /// The set without members.
    pub open spec fn none() -> FlagSet {
        FlagSet {
            muted: false,
            video_on: false,
            hand_raised: false,
            in_meeting: false,
            recording_on: false,
            background_blurred: false,
            sharing: false,
            unread_messages: false,
        }
    }

    /// The set without members.
    pub fn empty() -> (set: FlagSet)
        ensures
            set == FlagSet::none(),
    {
        FlagSet {
            muted: false,
            video_on: false,
            hand_raised: false,
            in_meeting: false,
            recording_on: false,
            background_blurred: false,
            sharing: false,
            unread_messages: false,
        }
    }

    /// Whether the flag is a member.
    pub fn has(&self, flag: Flag) -> (member: bool)
        ensures
            member == self.contains(flag),
    {
        match flag {
            Flag::Muted => self.muted,
            Flag::VideoOn => self.video_on,
            Flag::HandRaised => self.hand_raised,
            Flag::InMeeting => self.in_meeting,
            Flag::RecordingOn => self.recording_on,
            Flag::BackgroundBlurred => self.background_blurred,
            Flag::Sharing => self.sharing,
            Flag::UnreadMessages => self.unread_messages,
        }
    }

    /// Adds a flag.
    pub fn insert(&mut self, flag: Flag)
        ensures
            forall|other: Flag| final(self).contains(other) == (other == flag || old(self).contains(other)),
    {
        let set = *self;
        *self = match flag {
            Flag::Muted => FlagSet { muted: true, ..set },
            Flag::VideoOn => FlagSet { video_on: true, ..set },
            Flag::HandRaised => FlagSet { hand_raised: true, ..set },
            Flag::InMeeting => FlagSet { in_meeting: true, ..set },
            Flag::RecordingOn => FlagSet { recording_on: true, ..set },
            Flag::BackgroundBlurred => FlagSet { background_blurred: true, ..set },
            Flag::Sharing => FlagSet { sharing: true, ..set },
            Flag::UnreadMessages => FlagSet { unread_messages: true, ..set },
        };
    }

    /// Whether the set has no member.
    pub fn is_empty(&self) -> (empty: bool)
        ensures
            empty == self.vacant(),
    {
        !(self.muted || self.video_on || self.hand_raised || self.in_meeting || self.recording_on
            || self.background_blurred || self.sharing || self.unread_messages)
    }

    /// Number of members.
    pub fn len(&self) -> (count: usize)
        ensures
            count == self.size(),
            count <= FLAG_COUNT,
    {
        tally(
            self.muted,
            self.video_on,
            self.hand_raised,
            self.in_meeting,
            self.recording_on,
            self.background_blurred,
            self.sharing,
            self.unread_messages,
        )
    }
}

} // verus!
