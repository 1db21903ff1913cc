//! The settings of the Home Assistant sink: where it is, and the entity
//! that stands for each flag.

use vstd::prelude::*;
use vstd::string::*;
use crate::teams_ws::states::Flag;

verus! {

pub const HOME_ASSISTANT: &'static str = "Home Assistant";

pub const HA_LONG_LIVE_TOKEN: &'static str = "Long Live Token";

pub const HA_URL: &'static str = "URL";

pub const HA_MUTED: &'static str = "Home Assistant Entity - Muted";

pub const HA_VIDEO_ON: &'static str = "Home Assistant Entity - Video On";

pub const HA_HAND_RAISED: &'static str = "Home Assistant Entity - Hand Raised";

pub const HA_IN_A_MEETING: &'static str = "Home Assistant Entity - In a Meeting";

pub const HA_RECORDING: &'static str = "Home Assistant Entity - Recording";

pub const HA_BACKGROUND_BLURRED: &'static str = "Home Assistant Entity - Background Blurred";

pub const HA_SHARING: &'static str = "Home Assistant Entity - Sharing";

pub const HA_UNREAD_MESSAGES: &'static str = "Home Assistant Entity - Unread Messages";

pub const HA_ID: &'static str = "ID";

pub const HA_FRIENDLY_NAME: &'static str = "Friendly Name";

pub const HA_ICON_ON: &'static str = "Icon On";

pub const HA_ICON_OFF: &'static str = "Icon Off";

/// The icons of an entity, one for each value of its flag.
pub struct HaIcons {
    pub on: String,
    pub off: String,
}

/// `HaIcons` with its text as sequences of characters.
pub struct HaIconsView {
    pub on: Seq<char>,
    pub off: Seq<char>,
}

impl View for HaIcons {
    type V = HaIconsView;

    open spec fn view(&self) -> HaIconsView {
        HaIconsView { on: self.on@, off: self.off@ }
    }
}

/// A list of attributes, each a name and a value, as sequences of
/// characters.
pub type Attributes = Seq<(Seq<char>, Seq<char>)>;

/// The attributes of a list of pairs of strings.
pub open spec fn attributes_view(list: Seq<(String, String)>) -> Attributes {
    list.map_values(|pair: (String, String)| (pair.0@, pair.1@))
}

/// The entity that stands for one flag.
pub struct HaEntity {
    pub id: String,
    pub friendly_name: String,
    pub icons: HaIcons,
    /// Attributes that the entity has downstream and that every push has
    /// to repeat. No name occurs twice.
    pub additional_attributes: Vec<(String, String)>,
}

/// `HaEntity` with its text as sequences of characters.
pub struct HaEntityView {
    pub id: Seq<char>,
    pub friendly_name: Seq<char>,
    pub icons: HaIconsView,
    pub additional_attributes: Attributes,
}

impl View for HaEntity {
    type V = HaEntityView;

    open spec fn view(&self) -> HaEntityView {
        HaEntityView {
            id: self.id@,
            friendly_name: self.friendly_name@,
            icons: self.icons@,
            additional_attributes: attributes_view(self.additional_attributes@),
        }
    }
}

/// The position of a name in a list of attributes, or the length of the
/// list where the name is not in it.
pub open spec fn position_of(attributes: Attributes, name: Seq<char>) -> int
    decreases attributes.len(),
{
    if attributes.len() == 0 {
        0
    } else if attributes[0].0 == name {
        0
    } else {
        1 + position_of(attributes.skip(1), name)
    }
}

/// A list of attributes with one of them set: replaced in its place where
/// the name is in the list, added at the end where it is not.
pub open spec fn with_attribute(attributes: Attributes, name: Seq<char>, value: Seq<char>) -> Attributes {
    let position = position_of(attributes, name);
    if position < attributes.len() {
        attributes.update(position, (name, value))
    } else {
        attributes.push((name, value))
    }
}

/// No name occurs twice in a list of attributes.
pub open spec fn distinct_names(attributes: Attributes) -> bool {
    forall|first: int, second: int|
        0 <= first < second < attributes.len() ==> (#[trigger] attributes[first]).0 != (
        #[trigger] attributes[second]).0
}

/// `position_of` finds the first attribute of the name and stays within the
/// list.
pub proof fn position_is_first(attributes: Attributes, name: Seq<char>)
    ensures
        0 <= position_of(attributes, name) <= attributes.len(),
        position_of(attributes, name) < attributes.len() ==> attributes[position_of(
            attributes,
            name,
        )].0 == name,
        forall|index: int|
            0 <= index < position_of(attributes, name) ==> (#[trigger] attributes[index]).0 != name,
    decreases attributes.len(),
{
    if attributes.len() > 0 && attributes[0].0 != name {
        let rest = attributes.skip(1);
        position_is_first(rest, name);
        assert forall|index: int| 0 <= index < position_of(attributes, name) implies (
        #[trigger] attributes[index]).0 != name by {
            if index > 0 {
                assert(rest[index - 1] == attributes[index]);
            }
        }
    }
}

/// Setting an attribute keeps the names of a list distinct.
pub proof fn with_attribute_keeps_distinct(attributes: Attributes, name: Seq<char>, value: Seq<char>)
    requires
        distinct_names(attributes),
    ensures
        distinct_names(with_attribute(attributes, name, value)),
{
    position_is_first(attributes, name);
    let position = position_of(attributes, name);
    let after = with_attribute(attributes, name, value);
    assert forall|first: int, second: int| 0 <= first < second < after.len() implies (
    #[trigger] after[first]).0 != (#[trigger] after[second]).0 by {
        if position < attributes.len() {
            if first == position {
                assert(attributes[second].0 != attributes[position].0);
            } else if second == position {
                assert(attributes[first].0 != attributes[position].0);
            }
        } else if second == attributes.len() {
            assert(attributes[first].0 != name);
        }
    }
}

impl HaEntity {
    /// A copy of the entity.
    pub fn duplicate(&self) -> (copy: HaEntity)
        ensures
            copy@ == self@,
    {
        HaEntity {
            id: self.id.clone(),
            friendly_name: self.friendly_name.clone(),
            icons: HaIcons { on: self.icons.on.clone(), off: self.icons.off.clone() },
            additional_attributes: copy_attributes(&self.additional_attributes),
        }
    }

    /// Sets an additional attribute: replaces the value where the entity
    /// has the name, adds the attribute where it has not. No name comes to
    /// occur twice by it.
    pub fn set_attribute(&mut self, name: String, value: String)
        ensures
            final(self)@ == (HaEntityView {
                additional_attributes: with_attribute(
                    old(self)@.additional_attributes,
                    name@,
                    value@,
                ),
                ..old(self)@
            }),
            distinct_names(old(self)@.additional_attributes) ==> distinct_names(
                final(self)@.additional_attributes,
            ),
    {
        let ghost before = attributes_view(self.additional_attributes@);
        proof {
            if distinct_names(before) {
                with_attribute_keeps_distinct(before, name@, value@);
            }
        }
        let mut index: usize = 0;
        while index < self.additional_attributes.len()
            invariant
                index <= self.additional_attributes.len(),
                self.additional_attributes == old(self).additional_attributes,
                self.id == old(self).id,
                self.friendly_name == old(self).friendly_name,
                self.icons == old(self).icons,
                before == attributes_view(self.additional_attributes@),
                forall|earlier: int| 0 <= earlier < index ==> (#[trigger] before[earlier]).0 != name@,
            decreases self.additional_attributes.len() - index,
        {
            if self.additional_attributes[index].0 == name {
                proof {
                    position_unique(before, name@, index as int);
                }
                self.additional_attributes.set(index, (name, value));
                proof {
                    assert(attributes_view(self.additional_attributes@) =~= before.update(
                        index as int,
                        (name@, value@),
                    ));
                }
                return ;
            }
            index = index + 1;
        }
        proof {
            position_unique(before, name@, before.len() as int);
        }
        self.additional_attributes.push((name, value));
        proof {
            assert(attributes_view(self.additional_attributes@) =~= before.push((name@, value@)));
        }
    }
}

/// The position that `position_of` finds is the only one before which the
/// name does not occur and at which it does, or the end.
pub proof fn position_unique(attributes: Attributes, name: Seq<char>, position: int)
    requires
        0 <= position <= attributes.len(),
        forall|index: int| 0 <= index < position ==> (#[trigger] attributes[index]).0 != name,
        position < attributes.len() ==> attributes[position].0 == name,
    ensures
        position_of(attributes, name) == position,
{
    position_is_first(attributes, name);
    let found = position_of(attributes, name);
    if found < position {
        assert(attributes[found].0 != name);
    }
}

/// A copy of a list of attributes.
pub fn copy_attributes(list: &Vec<(String, String)>) -> (copy: Vec<(String, String)>)
    ensures
        attributes_view(copy@) == attributes_view(list@),
{
    let mut copy: Vec<(String, String)> = Vec::new();
    let mut index: usize = 0;
    while index < list.len()
        invariant
            index <= list.len(),
            copy.len() == index,
            forall|position: int|
                0 <= position < index ==> (#[trigger] copy[position]).0@ == list[position].0@
                    && copy[position].1@ == list[position].1@,
        decreases list.len() - index,
    {
        copy.push((list[index].0.clone(), list[index].1.clone()));
        index = index + 1;
    }
    proof {
        assert(attributes_view(copy@) =~= attributes_view(list@));
    }
    copy
}

/// The entities of the flags.
pub struct HaEntities {
    pub is_muted: HaEntity,
    pub is_video_on: HaEntity,
    pub is_hand_raised: HaEntity,
    pub is_in_meeting: HaEntity,
    pub is_recording_on: HaEntity,
    pub is_background_blurred: HaEntity,
    pub is_sharing: HaEntity,
    pub has_unread_messages: HaEntity,
}

/// `HaEntities` with its text as sequences of characters.
pub struct HaEntitiesView {
    pub is_muted: HaEntityView,
    pub is_video_on: HaEntityView,
    pub is_hand_raised: HaEntityView,
    pub is_in_meeting: HaEntityView,
    pub is_recording_on: HaEntityView,
    pub is_background_blurred: HaEntityView,
    pub is_sharing: HaEntityView,
    pub has_unread_messages: HaEntityView,
}

impl HaEntitiesView {
    /// The entity of a flag.
    pub open spec fn entity(self, flag: Flag) -> HaEntityView {
        match flag {
            Flag::Muted => self.is_muted,
            Flag::VideoOn => self.is_video_on,
            Flag::HandRaised => self.is_hand_raised,
            Flag::InMeeting => self.is_in_meeting,
            Flag::RecordingOn => self.is_recording_on,
            Flag::BackgroundBlurred => self.is_background_blurred,
            Flag::Sharing => self.is_sharing,
            Flag::UnreadMessages => self.has_unread_messages,
        }
    }

    /// The entities with the entity of one flag replaced.
    pub open spec fn with_entity(self, flag: Flag, entity: HaEntityView) -> HaEntitiesView {
        match flag {
            Flag::Muted => HaEntitiesView { is_muted: entity, ..self },
            Flag::VideoOn => HaEntitiesView { is_video_on: entity, ..self },
            Flag::HandRaised => HaEntitiesView { is_hand_raised: entity, ..self },
            Flag::InMeeting => HaEntitiesView { is_in_meeting: entity, ..self },
            Flag::RecordingOn => HaEntitiesView { is_recording_on: entity, ..self },
            Flag::BackgroundBlurred => HaEntitiesView { is_background_blurred: entity, ..self },
            Flag::Sharing => HaEntitiesView { is_sharing: entity, ..self },
            Flag::UnreadMessages => HaEntitiesView { has_unread_messages: entity, ..self },
        }
    }
}

impl View for HaEntities {
    type V = HaEntitiesView;

    open spec fn view(&self) -> HaEntitiesView {
        HaEntitiesView {
            is_muted: self.is_muted@,
            is_video_on: self.is_video_on@,
            is_hand_raised: self.is_hand_raised@,
            is_in_meeting: self.is_in_meeting@,
            is_recording_on: self.is_recording_on@,
            is_background_blurred: self.is_background_blurred@,
            is_sharing: self.is_sharing@,
            has_unread_messages: self.has_unread_messages@,
        }
    }
}

impl HaEntities {
    /// The entity of a flag.
    pub fn entity(&self, flag: Flag) -> (entity: &HaEntity)
        ensures
            entity@ == self@.entity(flag),
    {
        match flag {
            Flag::Muted => &self.is_muted,
            Flag::VideoOn => &self.is_video_on,
            Flag::HandRaised => &self.is_hand_raised,
            Flag::InMeeting => &self.is_in_meeting,
            Flag::RecordingOn => &self.is_recording_on,
            Flag::BackgroundBlurred => &self.is_background_blurred,
            Flag::Sharing => &self.is_sharing,
            Flag::UnreadMessages => &self.has_unread_messages,
        }
    }

    /// Replaces the entity of a flag.
    pub fn set_entity(&mut self, flag: Flag, entity: HaEntity)
        ensures
            final(self)@ == old(self)@.with_entity(flag, entity@),
    {
        match flag {
            Flag::Muted => { self.is_muted = entity; },
            Flag::VideoOn => { self.is_video_on = entity; },
            Flag::HandRaised => { self.is_hand_raised = entity; },
            Flag::InMeeting => { self.is_in_meeting = entity; },
            Flag::RecordingOn => { self.is_recording_on = entity; },
            Flag::BackgroundBlurred => { self.is_background_blurred = entity; },
            Flag::Sharing => { self.is_sharing = entity; },
            Flag::UnreadMessages => { self.has_unread_messages = entity; },
        }
    }

    /// The entities with their identifiers, in the order of the flags.
    pub fn into_iter(self) -> (entities: Vec<(String, HaEntity)>)
        ensures
            entities.len() == 8,
            forall|flag: Flag|
                (#[trigger] entities[flag.position()]).1@ == self@.entity(flag)
                    && entities[flag.position()].0@ == self@.entity(flag).id,
    {
        let mut entities: Vec<(String, HaEntity)> = Vec::new();
        entities.push((self.is_muted.id.clone(), self.is_muted));
        entities.push((self.is_video_on.id.clone(), self.is_video_on));
        entities.push((self.is_hand_raised.id.clone(), self.is_hand_raised));
        entities.push((self.is_in_meeting.id.clone(), self.is_in_meeting));
        entities.push((self.is_recording_on.id.clone(), self.is_recording_on));
        entities.push((self.is_background_blurred.id.clone(), self.is_background_blurred));
        entities.push((self.is_sharing.id.clone(), self.is_sharing));
        entities.push((self.has_unread_messages.id.clone(), self.has_unread_messages));
        entities
    }
}

/// The settings of the Home Assistant sink.
pub struct HaConfiguration {
    pub long_live_token: String,
    pub url: String,
    pub entities: HaEntities,
}

/// `HaConfiguration` with its text as sequences of characters.
pub struct HaConfigurationView {
    pub long_live_token: Seq<char>,
    pub url: Seq<char>,
    pub entities: HaEntitiesView,
}

impl View for HaConfiguration {
    type V = HaConfigurationView;

    open spec fn view(&self) -> HaConfigurationView {
        HaConfigurationView {
            long_live_token: self.long_live_token@,
            url: self.url@,
            entities: self.entities@,
        }
    }
}

/// An entity without additional attributes.
pub open spec fn plain_entity(id: Seq<char>, friendly_name: Seq<char>, on: Seq<char>, off: Seq<char>) -> HaEntityView {
    HaEntityView {
        id,
        friendly_name,
        icons: HaIconsView { on, off },
        additional_attributes: Seq::empty(),
    }
}

/// The settings of a fresh installation: no address, no token, and a binary
/// sensor for each flag.
pub open spec fn default_ha_configuration() -> HaConfigurationView {
    HaConfigurationView {
        long_live_token: ""@,
        url: ""@,
        entities: HaEntitiesView {
            is_muted: plain_entity(
                "binary_sensor.teams_muted"@,
                "Teams Muted"@,
                "mdi:microphone"@,
                "mdi:microphone-off"@,
            ),
            is_video_on: plain_entity(
                "binary_sensor.teams_video"@,
                "Teams Video"@,
                "mdi:webcam"@,
                "mdi:webcam-off"@,
            ),
            is_hand_raised: plain_entity(
                "binary_sensor.teams_hand_raised"@,
                "Teams Hand Raised"@,
                "mdi:hand-back-left"@,
                "mdi:hand-back-left-off"@,
            ),
            is_in_meeting: plain_entity(
                "binary_sensor.teams_meeting"@,
                "Teams Meeting"@,
                "mdi:phone-in-talk"@,
                "mdi:phone-off"@,
            ),
            is_recording_on: plain_entity(
                "binary_sensor.teams_recording"@,
                "Teams Recording"@,
                "mdi:record-rec"@,
                "mdi:power-off"@,
            ),
            is_background_blurred: plain_entity(
                "binary_sensor.teams_background_blurred"@,
                "Teams Background Blurred"@,
                "mdi:blur"@,
                "mdi:blur-off"@,
            ),
            is_sharing: plain_entity(
                "binary_sensor.teams_sharing"@,
                "Teams Sharing"@,
                "mdi:projector-screen"@,
                "mdi:projector-screen-off"@,
            ),
            has_unread_messages: plain_entity(
                "binary_sensor.teams_unread_messages"@,
                "Teams Unread Messages"@,
                "mdi:message-alert"@,
                "mdi:message-off"@,
            ),
        },
    }
}

fn make_entity(id: &str, friendly_name: &str, on: &str, off: &str) -> (entity: HaEntity)
    ensures
        entity@ == plain_entity(id@, friendly_name@, on@, off@),
{
    let entity = HaEntity {
        id: String::from_str(id),
        friendly_name: String::from_str(friendly_name),
        icons: HaIcons { on: String::from_str(on), off: String::from_str(off) },
        additional_attributes: Vec::new(),
    };
    proof {
        assert(attributes_view(entity.additional_attributes@) =~= Seq::empty());
    }
    entity
}

/// The settings of a fresh installation.
pub fn create_ha_configuration() -> (conf: HaConfiguration)
    ensures
        conf@ == default_ha_configuration(),
{
    let ha_entities = HaEntities {
        is_muted: make_entity(
            "binary_sensor.teams_muted",
            "Teams Muted",
            "mdi:microphone",
            "mdi:microphone-off",
        ),
        is_video_on: make_entity(
            "binary_sensor.teams_video",
            "Teams Video",
            "mdi:webcam",
            "mdi:webcam-off",
        ),
        is_hand_raised: make_entity(
            "binary_sensor.teams_hand_raised",
            "Teams Hand Raised",
            "mdi:hand-back-left",
            "mdi:hand-back-left-off",
        ),
        is_in_meeting: make_entity(
            "binary_sensor.teams_meeting",
            "Teams Meeting",
            "mdi:phone-in-talk",
            "mdi:phone-off",
        ),
        is_recording_on: make_entity(
            "binary_sensor.teams_recording",
            "Teams Recording",
            "mdi:record-rec",
            "mdi:power-off",
        ),
        is_background_blurred: make_entity(
            "binary_sensor.teams_background_blurred",
            "Teams Background Blurred",
            "mdi:blur",
            "mdi:blur-off",
        ),
        is_sharing: make_entity(
            "binary_sensor.teams_sharing",
            "Teams Sharing",
            "mdi:projector-screen",
            "mdi:projector-screen-off",
        ),
        has_unread_messages: make_entity(
            "binary_sensor.teams_unread_messages",
            "Teams Unread Messages",
            "mdi:message-alert",
            "mdi:message-off",
        ),
    };
    HaConfiguration {
        long_live_token: String::from_str(""),
        url: String::from_str(""),
        entities: ha_entities,
    }
}

} // verus!
