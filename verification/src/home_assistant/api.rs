//! The Home Assistant sink.
//!
//! A push sets the state of the entity of each flag that is due: one whose
//! value differs from what was last pushed, or every flag where the push is
//! forced. Each request repeats the entity's name, icon and further
//! attributes, because Home Assistant keeps none of them across a write.
//! Before its first push the sink learns those further attributes from Home
//! Assistant. Every series of requests starts with a probe of the API.

use vstd::prelude::*;
use vstd::string::*;
use crate::error::Error;
use crate::error::home_assistant_message;
use crate::home_assistant::client;
use crate::home_assistant::configuration::with_attribute;
use crate::home_assistant::configuration::Attributes;
use crate::home_assistant::configuration::HaConfiguration;
use crate::home_assistant::configuration::HaConfigurationView;
use crate::home_assistant::configuration::HaEntitiesView;
use crate::home_assistant::configuration::HaEntity;
use crate::home_assistant::configuration::HaEntityView;
use crate::home_assistant::configuration::attributes_view;
use crate::home_assistant::configuration::copy_attributes;
use crate::home_assistant::configuration::distinct_names;
use crate::render;
use crate::teams_ws::states::Flag;
use crate::teams_ws::states::TeamsStates;
use crate::teams_ws::states::flag_at;
use crate::teams_ws::states::FLAG_COUNT;
use crate::traits::Listener;
use crate::traits::SinkAction;
use crate::traits::SinkActionView;
use crate::traits::SinkEvent;
use crate::traits::StateRequest;
use crate::traits::StateRequestView;
use crate::utils::bool_to_str;
use crate::utils::on_off;
use crate::utils::same_text;

verus! {

/// The attribute that carries an entity's name.
pub const FRIENDLY_NAME: &'static str = "friendly_name";

/// The attribute that carries an entity's icon.
pub const ICON: &'static str = "icon";

/// The message of the error that reports a failed probe.
pub const API_UNREACHABLE: &'static str = "Home Assistant API cannot be reached";

/// What the probe reports while the API is running.
pub const API_RUNNING: &'static str = "API running.";

/// Reads the answer to a probe: the API is ready where the probe came
/// back with the message of a running API; `None` stands for a probe that
/// failed.
pub fn api_is_ready(message: Option<&str>) -> (ready: bool)
    ensures
        ready == (crate::utils::option_str(message) == Some(API_RUNNING@)),
{
    match message {
        Some(text) => same_text(text, API_RUNNING),
        None => false,
    }
}

/// The flags in the order in which they are pushed.
pub open spec fn publish_flag(index: int) -> Flag {
    if index == 0 {
        Flag::InMeeting
    } else if index == 1 {
        Flag::VideoOn
    } else if index == 2 {
        Flag::Muted
    } else if index == 3 {
        Flag::HandRaised
    } else {
        flag_at(index)
    }
}

/// The flag at a position of the order of pushing; the last flag for a
/// position beyond it.
pub fn flag_to_publish(index: usize) -> (flag: Flag)
    ensures
        flag == publish_flag(index as int),
{
    if index == 0 {
        Flag::InMeeting
    } else if index == 1 {
        Flag::VideoOn
    } else if index == 2 {
        Flag::Muted
    } else if index == 3 {
        Flag::HandRaised
    } else {
        Flag::from_index(index)
    }
}

/// What the sink waits for.
#[derive(Clone, Copy, Debug, PartialEq, Eq, Structural)]
pub enum HaPhase {
    /// No push is under way.
    Idle,
    /// The probe before the attributes are fetched.
    RefreshProbe,
    /// The attributes of the entity at `index` of the snapshot's order.
    RefreshFetch { index: usize },
    /// The probe before the flag at `index` of the order of pushing is
    /// pushed.
    FlagProbe { index: usize },
    /// The result of pushing that flag.
    FlagPost { index: usize },
}

/// The Home Assistant sink.
pub struct HaApi {
    pub ha_configuration: HaConfiguration,
    /// Whether the entities' further attributes have been fetched.
    pub queried_attributes: bool,
    /// Whether the push under way is forced.
    pub force_update: bool,
    /// What the sink waits for.
    pub phase: HaPhase,
}

/// `HaApi` with its text as sequences of characters.
pub struct HaApiView {
    pub ha_configuration: HaConfigurationView,
    pub queried_attributes: bool,
    pub force_update: bool,
    pub phase: HaPhase,
}

impl View for HaApi {
    type V = HaApiView;

    open spec fn view(&self) -> HaApiView {
        HaApiView {
            ha_configuration: self.ha_configuration@,
            queried_attributes: self.queried_attributes,
            force_update: self.force_update,
            phase: self.phase,
        }
    }
}

/// Whether a flag is due in a push: always where the push is forced, else
/// where its value differs from what was last pushed.
pub open spec fn is_due(states: TeamsStates, force_update: bool, flag: Flag) -> bool {
    force_update || states.current(flag) != states.previous(flag)
}

/// The first position of the order of pushing, from `from` on, whose flag
/// is due; the number of flags where none is.
pub open spec fn next_due(states: TeamsStates, force_update: bool, from: int) -> int
    decreases FLAG_COUNT - from,
{
    if from >= FLAG_COUNT {
        FLAG_COUNT as int
    } else if is_due(states, force_update, publish_flag(from)) {
        from
    } else {
        next_due(states, force_update, from + 1)
    }
}

/// The request that sets an entity to a value: its state, then its name,
/// the icon of the value, and its further attributes.
pub open spec fn request_for(entity: HaEntityView, value: bool) -> StateRequestView {
    StateRequestView {
        entity_id: entity.id,
        state: on_off(value),
        attributes: seq![
            (FRIENDLY_NAME@, entity.friendly_name),
            (ICON@, if value { entity.icons.on } else { entity.icons.off }),
        ] + entity.additional_attributes,
    }
}

/// The text that an attribute value is kept as: a string's content, any
/// other value's JSON text.
pub open spec fn attribute_text(value: serde_json::Value) -> Seq<char> {
    match render::string_content(value) {
        Some(content) => content,
        None => render::value_text(value),
    }
}

/// Attributes after one fetched attribute has been taken in: name and icon
/// are the sink's own and are passed over, any other is set.
pub open spec fn absorb_one(attributes: Attributes, name: Seq<char>, value: serde_json::Value) -> Attributes {
    if name == FRIENDLY_NAME@ || name == ICON@ {
        attributes
    } else {
        with_attribute(attributes, name, attribute_text(value))
    }
}

/// Attributes after a list of fetched attributes has been taken in, one
/// after the other.
pub open spec fn absorbed(attributes: Attributes, fetched: Seq<(String, serde_json::Value)>) -> Attributes
    decreases fetched.len(),
{
    if fetched.len() == 0 {
        attributes
    } else {
        absorb_one(absorbed(attributes, fetched.drop_last()), fetched.last().0@, fetched.last().1)
    }
}

/// The entities after the attributes of one of them came back.
pub open spec fn entities_after_fetch(
    entities: HaEntitiesView,
    flag: Flag,
    fetched: Option<Vec<(String, serde_json::Value)>>,
) -> HaEntitiesView {
    match fetched {
        Some(list) => entities.with_entity(
            flag,
            HaEntityView {
                additional_attributes: absorbed(
                    entities.entity(flag).additional_attributes,
                    list@,
                ),
                ..entities.entity(flag)
            },
        ),
        None => entities,
    }
}

/// The sink after the attributes of one entity came back.
#[verifier::opaque]
pub open spec fn learned(
    sink: HaApiView,
    flag: Flag,
    fetched: Option<Vec<(String, serde_json::Value)>>,
) -> HaApiView {
    HaApiView {
        ha_configuration: HaConfigurationView {
            entities: entities_after_fetch(sink.ha_configuration.entities, flag, fetched),
            ..sink.ha_configuration
        },
        ..sink
    }
}

/// Fetched attributes change the entities alone.
pub proof fn learned_keeps_control(
    sink: HaApiView,
    flag: Flag,
    fetched: Option<Vec<(String, serde_json::Value)>>,
)
    ensures
        learned(sink, flag, fetched).phase == sink.phase,
        learned(sink, flag, fetched).force_update == sink.force_update,
        learned(sink, flag, fetched).queried_attributes == sink.queried_attributes,
        learned(sink, flag, fetched).ha_configuration.url == sink.ha_configuration.url,
        learned(sink, flag, fetched).ha_configuration.long_live_token
            == sink.ha_configuration.long_live_token,
        learned(sink, flag, fetched).ha_configuration.entities == entities_after_fetch(
            sink.ha_configuration.entities,
            flag,
            fetched,
        ),
{
    reveal(learned);
}

/// The sink with another phase.
pub open spec fn in_phase(sink: HaApiView, phase: HaPhase) -> HaApiView {
    HaApiView { phase, ..sink }
}

/// The failure that ends a push where the probe found no running API.
pub open spec fn unreachable() -> SinkActionView {
    SinkActionView::Done(Err(API_UNREACHABLE@))
}

/// What follows where a series of requests is to begin: the probe with a
/// new client, or the end of the push where none can be made for the
/// configured address.
pub open spec fn probe_then(sink: HaApiView, phase: HaPhase) -> (HaApiView, SinkActionView) {
    match client::client_for(sink.ha_configuration.url, sink.ha_configuration.long_live_token) {
        Ok(made) => (in_phase(sink, phase), SinkActionView::Probe(made)),
        Err(description) => (
            in_phase(sink, HaPhase::Idle),
            SinkActionView::Done(Err(home_assistant_message(description))),
        ),
    }
}

/// What follows where the flags from a position on are to be pushed: the
/// probe for the first that is due, or the end of the push where none is.
#[verifier::opaque]
pub open spec fn push_from(sink: HaApiView, states: TeamsStates, from: int) -> (
    HaApiView,
    SinkActionView,
) {
    let index = next_due(states, sink.force_update, from);
    if index >= FLAG_COUNT {
        (in_phase(sink, HaPhase::Idle), SinkActionView::Done(Ok(())))
    } else {
        probe_then(sink, HaPhase::FlagProbe { index: index as usize })
    }
}

/// What follows where a push begins: first the fetch of the attributes, if
/// it has not been made, else the flags.
pub open spec fn push_begun(sink: HaApiView, states: TeamsStates, force_update: bool) -> (
    HaApiView,
    SinkActionView,
) {
    let forced = HaApiView { force_update, ..sink };
    if !sink.queried_attributes {
        probe_then(forced, HaPhase::RefreshProbe)
    } else {
        push_from(forced, states, 0)
    }
}

fn next_due_flag(states: &TeamsStates, force_update: bool, from: usize) -> (index: usize)
    ensures
        index == next_due(*states, force_update, from as int),
        from <= index || index == FLAG_COUNT,
        index <= FLAG_COUNT,
{
    let mut index = from;
    while index < FLAG_COUNT
        invariant
            from <= index,
            next_due(*states, force_update, index as int) == next_due(
                *states,
                force_update,
                from as int,
            ),
        decreases FLAG_COUNT - index,
    {
        let flag = flag_to_publish(index);
        if force_update || states.get(flag) != states.get_previous(flag) {
            return index;
        }
        index = index + 1;
    }
    FLAG_COUNT
}

/// Builds the request that sets an entity to a value.
pub fn state_request(entity: &HaEntity, value: bool) -> (request: StateRequest)
    ensures
        request@ == request_for(entity@, value),
{
    let mut attributes: Vec<(String, String)> = Vec::new();
    attributes.push((String::from_str(FRIENDLY_NAME), entity.friendly_name.clone()));
    let icon = if value {
        entity.icons.on.clone()
    } else {
        entity.icons.off.clone()
    };
    attributes.push((String::from_str(ICON), icon));
    let mut further = copy_attributes(&entity.additional_attributes);
    let ghost head = attributes@;
    let ghost tail = further@;
    attributes.append(&mut further);
    proof {
        assert(attributes@ == head + tail);
        assert(attributes_view(attributes@) =~= attributes_view(head) + attributes_view(tail));
        assert(attributes_view(head) =~= seq![
            (FRIENDLY_NAME@, entity.friendly_name@),
            (ICON@, if value { entity.icons.on@ } else { entity.icons.off@ }),
        ]);
    }
    StateRequest { entity_id: entity.id.clone(), state: bool_to_str(value), attributes }
}

/// The text that an attribute value is kept as.
pub fn text_of_attribute(value: &serde_json::Value) -> (text: String)
    ensures
        text@ == attribute_text(*value),
{
    match render::read_string(value) {
        Some(content) => content,
        None => render::write_value(value),
    }
}

/// Takes the fetched attributes of an entity in. No name comes to occur
/// twice by it.
pub fn absorb(entity: &mut HaEntity, fetched: &Vec<(String, serde_json::Value)>)
    ensures
        final(entity)@ == (HaEntityView {
            additional_attributes: absorbed(old(entity)@.additional_attributes, fetched@),
            ..old(entity)@
        }),
        distinct_names(old(entity)@.additional_attributes) ==> distinct_names(
            final(entity)@.additional_attributes,
        ),
{
    let mut index: usize = 0;
    proof {
        assert(fetched@.take(0) =~= Seq::empty());
    }
    while index < fetched.len()
        invariant
            index <= fetched.len(),
            entity@ == (HaEntityView {
                additional_attributes: absorbed(
                    old(entity)@.additional_attributes,
                    fetched@.take(index as int),
                ),
                ..old(entity)@
            }),
            distinct_names(old(entity)@.additional_attributes) ==> distinct_names(
                entity@.additional_attributes,
            ),
        decreases fetched.len() - index,
    {
        proof {
            let longer = fetched@.take(index + 1);
            assert(longer.drop_last() =~= fetched@.take(index as int));
            assert(longer.last() == fetched@[index as int]);
        }
        let name = &fetched[index].0;
        let own = same_text(name.as_str(), FRIENDLY_NAME) || same_text(name.as_str(), ICON);
        if !own {
            entity.set_attribute(name.clone(), text_of_attribute(&fetched[index].1));
        }
        index = index + 1;
    }
    proof {
        assert(fetched@.take(fetched.len() as int) =~= fetched@);
    }
}

/// The sink's rule: the sink, the snapshot and the action that follow an
/// event.
///
/// A probe that finds the API running is followed by the requests it was
/// made for; one that does not ends the push with an error. The attributes
/// of the entities are fetched one entity after the other; an entity whose
/// state cannot be fetched keeps its attributes. A state-set request counts
/// as pushed when it returns, accepted or not, and the next flag that is
/// due follows. An event that is not the one awaited changes nothing.
pub open spec fn ha_next(sink: HaApiView, states: TeamsStates, event: SinkEvent) -> (
    HaApiView,
    TeamsStates,
    SinkActionView,
) {
    match (sink.phase, event) {
        (HaPhase::RefreshProbe, SinkEvent::Probed { ready }) => if ready {
            (
                in_phase(sink, HaPhase::RefreshFetch { index: 0 }),
                states,
                SinkActionView::FetchAttributes {
                    entity_id: sink.ha_configuration.entities.entity(flag_at(0)).id,
                },
            )
        } else {
            (in_phase(sink, HaPhase::Idle), states, unreachable())
        },
        (HaPhase::RefreshFetch { index }, SinkEvent::Attributes(fetched)) => if index
            < FLAG_COUNT {
            let informed = learned(sink, flag_at(index as int), fetched);
            if index + 1 < FLAG_COUNT {
                (
                    in_phase(informed, HaPhase::RefreshFetch { index: (index + 1) as usize }),
                    states,
                    SinkActionView::FetchAttributes {
                        entity_id: informed.ha_configuration.entities.entity(
                            flag_at(index + 1),
                        ).id,
                    },
                )
            } else {
                let (after, action) = push_from(
                    HaApiView { queried_attributes: true, ..informed },
                    states,
                    0,
                );
                (after, states, action)
            }
        } else {
            (sink, states, SinkActionView::Nothing)
        },
        (HaPhase::FlagProbe { index }, SinkEvent::Probed { ready }) => if index < FLAG_COUNT {
            if ready {
                let flag = publish_flag(index as int);
                (
                    in_phase(sink, HaPhase::FlagPost { index }),
                    states,
                    SinkActionView::SetState(
                        request_for(sink.ha_configuration.entities.entity(flag), states.current(flag)),
                    ),
                )
            } else {
                (in_phase(sink, HaPhase::Idle), states, unreachable())
            }
        } else {
            (sink, states, SinkActionView::Nothing)
        },
        (HaPhase::FlagPost { index }, SinkEvent::StateSet { accepted }) => if index < FLAG_COUNT {
            let flag = publish_flag(index as int);
            let pushed = states.with_previous(flag, states.current(flag));
            let (after, action) = push_from(sink, pushed, index + 1);
            (after, pushed, action)
        } else {
            (sink, states, SinkActionView::Nothing)
        },
        _ => (sink, states, SinkActionView::Nothing),
    }
}

impl HaApi {
    /// A sink for the given settings, which has not fetched the entities'
    /// attributes yet.
    pub fn new(ha_configuration: HaConfiguration) -> (sink: HaApi)
        ensures
            sink.ha_configuration == ha_configuration,
            !sink.queried_attributes,
            !sink.force_update,
            sink.phase == HaPhase::Idle,
    {
        HaApi {
            ha_configuration,
            queried_attributes: false,
            force_update: false,
            phase: HaPhase::Idle,
        }
    }

    fn probe(&mut self, phase: HaPhase) -> (action: SinkAction)
        ensures
            (final(self)@, action@) == probe_then(old(self)@, phase),
    {
        match client::new_client(
            self.ha_configuration.url.as_str(),
            self.ha_configuration.long_live_token.as_str(),
        ) {
            Ok(made) => {
                self.phase = phase;
                SinkAction::Probe(made)
            },
            Err(description) => {
                self.phase = HaPhase::Idle;
                SinkAction::Done(Err(Error::home_assistant(description.as_str())))
            },
        }
    }

    fn push(&mut self, states: &TeamsStates, from: usize) -> (action: SinkAction)
        ensures
            (final(self)@, action@) == push_from(old(self)@, *states, from as int),
    {
        reveal(push_from);
        let index = next_due_flag(states, self.force_update, from);
        if index >= FLAG_COUNT {
            self.phase = HaPhase::Idle;
            SinkAction::Done(Ok(()))
        } else {
            self.probe(HaPhase::FlagProbe { index })
        }
    }

    fn unreachable(&mut self) -> (action: SinkAction)
        ensures
            final(self)@ == in_phase(old(self)@, HaPhase::Idle),
            action@ == unreachable(),
    {
        self.phase = HaPhase::Idle;
        SinkAction::Done(Err(Error::new(String::from_str(API_UNREACHABLE))))
    }

    fn fetch(&mut self, index: usize) -> (action: SinkAction)
        requires
            index < FLAG_COUNT,
        ensures
            final(self)@ == in_phase(old(self)@, HaPhase::RefreshFetch { index }),
            action@ == (SinkActionView::FetchAttributes {
                entity_id: old(self)@.ha_configuration.entities.entity(flag_at(index as int)).id,
            }),
    {
        self.phase = HaPhase::RefreshFetch { index };
        SinkAction::FetchAttributes {
            entity_id: self.ha_configuration.entities.entity(Flag::from_index(index)).id.clone(),
        }
    }

    fn learn(&mut self, flag: Flag, fetched: Option<Vec<(String, serde_json::Value)>>)
        ensures
            final(self)@ == learned(old(self)@, flag, fetched),
    {
        reveal(learned);
        match fetched {
            Some(list) => {
                let mut entity = self.ha_configuration.entities.entity(flag).duplicate();
                absorb(&mut entity, &list);
                self.ha_configuration.entities.set_entity(flag, entity);
            },
            None => {},
        }
    }

    fn on_fetched(
        &mut self,
        states: &TeamsStates,
        index: usize,
        fetched: Option<Vec<(String, serde_json::Value)>>,
    ) -> (action: SinkAction)
        requires
            old(self).phase == (HaPhase::RefreshFetch { index }),
        ensures
            (final(self)@, *states, action@) == ha_next(
                old(self)@,
                *states,
                SinkEvent::Attributes(fetched),
            ),
    {
        if index < FLAG_COUNT {
            self.learn(Flag::from_index(index), fetched);
            if index + 1 < FLAG_COUNT {
                self.fetch(index + 1)
            } else {
                self.queried_attributes = true;
                self.push(states, 0)
            }
        } else {
            SinkAction::Nothing
        }
    }

    fn on_probed(&mut self, states: &TeamsStates, ready: bool) -> (action: SinkAction)
        ensures
            (final(self)@, *states, action@) == ha_next(
                old(self)@,
                *states,
                SinkEvent::Probed { ready },
            ),
    {
        match self.phase {
            HaPhase::RefreshProbe => {
                if ready {
                    self.fetch(0)
                } else {
                    self.unreachable()
                }
            },
            HaPhase::FlagProbe { index } => {
                if index < FLAG_COUNT {
                    if ready {
                        let flag = flag_to_publish(index);
                        self.phase = HaPhase::FlagPost { index };
                        SinkAction::SetState(
                            state_request(
                                self.ha_configuration.entities.entity(flag),
                                states.get(flag),
                            ),
                        )
                    } else {
                        self.unreachable()
                    }
                } else {
                    SinkAction::Nothing
                }
            },
            _ => SinkAction::Nothing,
        }
    }

    fn on_state_set(&mut self, states: &mut TeamsStates, accepted: bool) -> (action: SinkAction)
        ensures
            (final(self)@, *final(states), action@) == ha_next(
                old(self)@,
                *old(states),
                SinkEvent::StateSet { accepted },
            ),
    {
        match self.phase {
            HaPhase::FlagPost { index } => {
                if index < FLAG_COUNT {
                    states.mark_pushed(flag_to_publish(index));
                    self.push(states, index + 1)
                } else {
                    SinkAction::Nothing
                }
            },
            _ => SinkAction::Nothing,
        }
    }
}

impl Listener for HaApi {
    /// Begins a push of the snapshot. A push that was under way is given
    /// up for it.
    fn notify_changed(&mut self, teams_states: &mut TeamsStates, force_update: bool) -> (action:
        SinkAction)
        ensures
            *final(teams_states) == *old(teams_states),
            (final(self)@, action@) == push_begun(old(self)@, *old(teams_states), force_update),
    {
        self.force_update = force_update;
        if !self.queried_attributes {
            self.probe(HaPhase::RefreshProbe)
        } else {
            self.push(teams_states, 0)
        }
    }

    /// Takes the report of a request and names the next one.
    fn resume(&mut self, teams_states: &mut TeamsStates, event: SinkEvent) -> (action: SinkAction)
        ensures
            (final(self)@, *final(teams_states), action@) == ha_next(
                old(self)@,
                *old(teams_states),
                event,
            ),
    {
        match event {
            SinkEvent::Probed { ready } => self.on_probed(teams_states, ready),
            SinkEvent::Attributes(fetched) => match self.phase {
                HaPhase::RefreshFetch { index } => self.on_fetched(teams_states, index, fetched),
                _ => SinkAction::Nothing,
            },
            SinkEvent::StateSet { accepted } => self.on_state_set(teams_states, accepted),
            _ => SinkAction::Nothing,
        }
    }

    /// Nothing is renewed: each series of requests makes its own client.
    fn reconnect(&mut self) -> (action: SinkAction)
        ensures
            final(self)@ == in_phase(old(self)@, HaPhase::Idle),
            action@ == SinkActionView::Done(Ok(())),
    {
        self.phase = HaPhase::Idle;
        SinkAction::Done(Ok(()))
    }
}

} // verus!
