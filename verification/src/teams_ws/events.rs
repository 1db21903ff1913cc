//! Decoding of inbound messages into upstream events.

use vstd::prelude::*;
use crate::teams_ws::states::Flag;
use crate::teams_ws::states::FlagSet;
use crate::wire;

verus! {

impl Flag {
    /// The member of the meeting state object that carries the flag.
    pub open spec fn json_key(self) -> Seq<char> {
        match self {
            Flag::Muted => "isMuted"@,
            Flag::VideoOn => "isVideoOn"@,
            Flag::HandRaised => "isHandRaised"@,
            Flag::InMeeting => "isInMeeting"@,
            Flag::RecordingOn => "isRecordingOn"@,
            Flag::BackgroundBlurred => "isBackgroundBlurred"@,
            Flag::Sharing => "isSharing"@,
            Flag::UnreadMessages => "hasUnreadMessages"@,
        }
    }

    /// The member of the meeting state object that carries the flag.
    pub fn json_name(self) -> (name: &'static str)
        ensures
            name@ == self.json_key(),
    {
        match self {
            Flag::Muted => "isMuted",
            Flag::VideoOn => "isVideoOn",
            Flag::HandRaised => "isHandRaised",
            Flag::InMeeting => "isInMeeting",
            Flag::RecordingOn => "isRecordingOn",
            Flag::BackgroundBlurred => "isBackgroundBlurred",
            Flag::Sharing => "isSharing",
            Flag::UnreadMessages => "hasUnreadMessages",
        }
    }
}

/// The flags of one meeting update as the message reported them. A flag that
/// the message leaves out, or gives as anything but a boolean, is `None`.
#[derive(Clone, Copy, Debug, PartialEq, Eq, Structural)]
pub struct MeetingState {
    pub is_muted: Option<bool>,
    pub is_video_on: Option<bool>,
    pub is_hand_raised: Option<bool>,
    pub is_in_meeting: Option<bool>,
    pub is_recording_on: Option<bool>,
    pub is_background_blurred: Option<bool>,
    pub has_unread_messages: Option<bool>,
    pub is_sharing: Option<bool>,
}

impl MeetingState {
    /// What the message reported for a flag.
    pub open spec fn reported(self, flag: Flag) -> Option<bool> {
        match flag {
            Flag::Muted => self.is_muted,
            Flag::VideoOn => self.is_video_on,
            Flag::HandRaised => self.is_hand_raised,
            Flag::InMeeting => self.is_in_meeting,
            Flag::RecordingOn => self.is_recording_on,
            Flag::BackgroundBlurred => self.is_background_blurred,
            Flag::Sharing => self.is_sharing,
            Flag::UnreadMessages => self.has_unread_messages,
        }
    }

    /// The value the update gives a flag: the reported one, or off.
    pub open spec fn value(self, flag: Flag) -> bool {
        match self.reported(flag) {
            Some(value) => value,
            None => false,
        }
    }

    /// The update that reports no flag at all.
    pub open spec fn unreporting() -> MeetingState {
        MeetingState {
            is_muted: None,
            is_video_on: None,
            is_hand_raised: None,
            is_in_meeting: None,
            is_recording_on: None,
            is_background_blurred: None,
            has_unread_messages: None,
            is_sharing: None,
        }
    }

    /// The update that reports no flag at all.
    pub fn silent() -> (state: MeetingState)
        ensures
            state == MeetingState::unreporting(),
    {
        MeetingState {
            is_muted: None,
            is_video_on: None,
            is_hand_raised: None,
            is_in_meeting: None,
            is_recording_on: None,
            is_background_blurred: None,
            has_unread_messages: None,
            is_sharing: None,
        }
    }

    /// What the message reported for a flag.
    pub fn get(&self, flag: Flag) -> (reported: Option<bool>)
        ensures
            reported == self.reported(flag),
    {
        match flag {
            Flag::Muted => self.is_muted,
            Flag::VideoOn => self.is_video_on,
            Flag::HandRaised => self.is_hand_raised,
            Flag::InMeeting => self.is_in_meeting,
            Flag::RecordingOn => self.is_recording_on,
            Flag::BackgroundBlurred => self.is_background_blurred,
            Flag::Sharing => self.is_sharing,
            Flag::UnreadMessages => self.has_unread_messages,
        }
    }

    /// The value the update gives a flag: the reported one, or off.
    pub fn value_of(&self, flag: Flag) -> (value: bool)
        ensures
            value == self.value(flag),
    {
        match self.get(flag) {
            Some(value) => value,
            None => false,
        }
    }

    /// The flags the message did not report.
    pub open spec fn unreported(self) -> FlagSet {
        FlagSet {
            muted: self.is_muted is None,
            video_on: self.is_video_on is None,
            hand_raised: self.is_hand_raised is None,
            in_meeting: self.is_in_meeting is None,
            recording_on: self.is_recording_on is None,
            background_blurred: self.is_background_blurred is None,
            sharing: self.is_sharing is None,
            unread_messages: self.has_unread_messages is None,
        }
    }

    /// The flags the message did not report: the decoding anomalies, one for
    /// each such flag.
    pub fn missing(&self) -> (anomalies: FlagSet)
        ensures
            anomalies == self.unreported(),
    {
        FlagSet {
            muted: self.is_muted.is_none(),
            video_on: self.is_video_on.is_none(),
            hand_raised: self.is_hand_raised.is_none(),
            in_meeting: self.is_in_meeting.is_none(),
            recording_on: self.is_recording_on.is_none(),
            background_blurred: self.is_background_blurred.is_none(),
            sharing: self.is_sharing.is_none(),
            unread_messages: self.has_unread_messages.is_none(),
        }
    }
}

/// A flag is an anomaly of an update exactly when the update does not
/// report it, and it then counts as off.
pub proof fn anomaly_is_unreported(update: MeetingState, flag: Flag)
    ensures
        update.unreported().contains(flag) == (update.reported(flag) is None),
        update.unreported().contains(flag) ==> !update.value(flag),
{
}

/// What an inbound message means to the bridge.
#[derive(Debug)]
pub enum UpstreamEvent {
    /// The meeting client reported its state.
    MeetingUpdate(MeetingState),
    /// The meeting client issued a new API token.
    TokenRefresh { token: String },
    /// Anything else; it is ignored.
    Unknown,
}

/// An upstream event with its text as a sequence of characters.
pub enum UpstreamEventView {
    MeetingUpdate(MeetingState),
    TokenRefresh { token: Seq<char> },
    Unknown,
}

impl View for UpstreamEvent {
    type V = UpstreamEventView;

    open spec fn view(&self) -> UpstreamEventView {
        match *self {
            UpstreamEvent::MeetingUpdate(state) => UpstreamEventView::MeetingUpdate(state),
            UpstreamEvent::TokenRefresh { token } => UpstreamEventView::TokenRefresh {
                token: token@,
            },
            UpstreamEvent::Unknown => UpstreamEventView::Unknown,
        }
    }
}

/// What the decoder reads from a JSON document, as plain values.
pub struct MessageFields {
    /// The document has a member `meetingUpdate`.
    pub has_meeting_update: bool,
    /// The flags under `meetingUpdate.meetingState`.
    pub meeting_state: MeetingState,
    /// The document has a member `tokenRefresh`.
    pub has_token_refresh: bool,
    /// That member is empty: null, `false`, zero, or without content.
    pub token_is_empty: bool,
    /// That member as text.
    pub token: String,
}

/// `MessageFields` with its text as a sequence of characters.
pub struct MessageFieldsView {
    pub has_meeting_update: bool,
    pub meeting_state: MeetingState,
    pub has_token_refresh: bool,
    pub token_is_empty: bool,
    pub token: Seq<char>,
}

impl View for MessageFields {
    type V = MessageFieldsView;

    open spec fn view(&self) -> MessageFieldsView {
        MessageFieldsView {
            has_meeting_update: self.has_meeting_update,
            meeting_state: self.meeting_state,
            has_token_refresh: self.has_token_refresh,
            token_is_empty: self.token_is_empty,
            token: self.token@,
        }
    }
}

/// The event that a message with the given fields stands for. A meeting
/// update wins over a token; a token counts only where it is not empty.
pub open spec fn event_of(fields: MessageFieldsView) -> UpstreamEventView {
    if fields.has_meeting_update {
        UpstreamEventView::MeetingUpdate(fields.meeting_state)
    } else if fields.has_token_refresh && !fields.token_is_empty {
        UpstreamEventView::TokenRefresh { token: fields.token }
    } else {
        UpstreamEventView::Unknown
    }
}

/// The meeting state object of a document.
pub open spec fn state_node(document: json::JsonValue) -> json::JsonValue {
    wire::member(wire::member(document, "meetingUpdate"@), "meetingState"@)
}

/// What a document reports for one flag.
pub open spec fn reported_flag(document: json::JsonValue, flag: Flag) -> Option<bool> {
    wire::as_bool(wire::member(state_node(document), flag.json_key()))
}

/// The fields of a document, over the named results of the JSON accessors.
pub open spec fn fields_of(document: json::JsonValue) -> MessageFieldsView {
    MessageFieldsView {
        has_meeting_update: wire::has_key(document, "meetingUpdate"@),
        meeting_state: MeetingState {
            is_muted: reported_flag(document, Flag::Muted),
            is_video_on: reported_flag(document, Flag::VideoOn),
            is_hand_raised: reported_flag(document, Flag::HandRaised),
            is_in_meeting: reported_flag(document, Flag::InMeeting),
            is_recording_on: reported_flag(document, Flag::RecordingOn),
            is_background_blurred: reported_flag(document, Flag::BackgroundBlurred),
            has_unread_messages: reported_flag(document, Flag::UnreadMessages),
            is_sharing: reported_flag(document, Flag::Sharing),
        },
        has_token_refresh: wire::has_key(document, "tokenRefresh"@),
        token_is_empty: wire::is_empty(wire::member(document, "tokenRefresh"@)),
        token: wire::text(wire::member(document, "tokenRefresh"@)),
    }
}

/// The event that a raw message stands for: `Unknown` where the text is not
/// valid JSON, else the event of the document's fields.
pub open spec fn decoded(raw: Seq<char>) -> UpstreamEventView {
    match wire::parsed(raw) {
        Some(document) => event_of(fields_of(document)),
        None => UpstreamEventView::Unknown,
    }
}

/// Decides which event a message with the given fields stands for.
pub fn classify(fields: MessageFields) -> (event: UpstreamEvent)
    ensures
        event@ == event_of(fields@),
{
    if fields.has_meeting_update {
        UpstreamEvent::MeetingUpdate(fields.meeting_state)
    } else if fields.has_token_refresh && !fields.token_is_empty {
        UpstreamEvent::TokenRefresh { token: fields.token }
    } else {
        UpstreamEvent::Unknown
    }
}

fn read_flag(state: &json::JsonValue, flag: Flag) -> (reported: Option<bool>)
    ensures
        reported == wire::as_bool(wire::member(*state, flag.json_key())),
{
    wire::value_as_bool(wire::value_member(state, flag.json_name()))
}

/// Reads from a parsed document what the decoder needs.
pub fn read_fields(document: &json::JsonValue) -> (fields: MessageFields)
    ensures
        fields@ == fields_of(*document),
{
    let state = wire::value_member(wire::value_member(document, "meetingUpdate"), "meetingState");
    let token = wire::value_member(document, "tokenRefresh");
    MessageFields {
        has_meeting_update: wire::value_has_key(document, "meetingUpdate"),
        meeting_state: MeetingState {
            is_muted: read_flag(state, Flag::Muted),
            is_video_on: read_flag(state, Flag::VideoOn),
            is_hand_raised: read_flag(state, Flag::HandRaised),
            is_in_meeting: read_flag(state, Flag::InMeeting),
            is_recording_on: read_flag(state, Flag::RecordingOn),
            is_background_blurred: read_flag(state, Flag::BackgroundBlurred),
            has_unread_messages: read_flag(state, Flag::UnreadMessages),
            is_sharing: read_flag(state, Flag::Sharing),
        },
        has_token_refresh: wire::value_has_key(document, "tokenRefresh"),
        token_is_empty: wire::value_is_empty(token),
        token: wire::value_text(token),
    }
}

/// Decodes a raw message. Text that is not valid JSON is `Unknown`, never an
/// error.
pub fn decode(raw: &str) -> (event: UpstreamEvent)
    ensures
        event@ == decoded(raw@),
{
    match wire::parse(raw) {
        Some(document) => classify(read_fields(&document)),
        None => UpstreamEvent::Unknown,
    }
}

} // verus!
