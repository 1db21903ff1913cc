//! The connection manager: the life of one upstream session, from the
//! address it connects to, through the messages it streams, to its close.
//!
//! The manager decides; its caller owns the socket and the clock. Each event
//! tells the manager what happened, and the action it returns tells the
//! caller what to do about it.

use vstd::prelude::*;
use vstd::string::*;
use crate::address;
use crate::error::Error;
use crate::error::parse_error_message;
use crate::teams_ws::configuration::TeamsConfiguration;
use crate::teams_ws::configuration::TeamsConfigurationView;
use crate::teams_ws::detector::apply;
use crate::teams_ws::detector::changed_flags;
use crate::teams_ws::detector::dispatch_due;
use crate::teams_ws::detector::force_after;
use crate::teams_ws::detector::snapshot_after;
use crate::teams_ws::detector::token_of;
use crate::teams_ws::detector::Detection;
use crate::teams_ws::events::decode;
use crate::teams_ws::events::decoded;
use crate::teams_ws::events::UpstreamEvent;
use crate::teams_ws::events::UpstreamEventView;
use crate::teams_ws::states::FlagSet;
use crate::teams_ws::states::TeamsStates;
use crate::utils::option_text;

verus! {

/// The query that identifies the bridge to the meeting client.
pub const DEVICE_QUERY: &'static str =
    "protocol-version=2.0.0&manufacturer=HA-Integration&device=MyPC&app=teams-status-rs&app-version=1.0";

/// The command that asks the meeting client to toggle the microphone.
pub const TOGGLE_MUTE_COMMAND: &'static str =
    "{\"requestId\":1,\"apiVersion\":\"2.0.0\",\"action\":\"toggle-mute\"}";

/// Seconds between two looks at the control flags.
pub const TICK_SECS: u64 = 1;

/// The message of the error that ends a session which could not connect.
pub const CONNECT_FAILED: &'static str = "Failed to connect";

/// The text that `String::from_utf8_lossy` makes of bytes: the text they
/// encode, with the replacement character for what is no UTF-8.
pub uninterp spec fn lossy_text(bytes: Seq<u8>) -> Seq<char>;

/// Calls `String::from_utf8_lossy`.
#[verifier::external_body]
fn utf8_lossy(bytes: &[u8]) -> (text: String)
    ensures
        text@ == lossy_text(bytes@),
{
    String::from_utf8_lossy(bytes).into_owned()
}

/// The address a session connects to: the client's address, the token if
/// there is one, and the device query.
pub open spec fn listen_url(conf: TeamsConfigurationView) -> Seq<char> {
    if conf.api_token.len() > 0 {
        conf.url + "?"@ + "token="@ + conf.api_token + "&"@ + DEVICE_QUERY@
    } else {
        conf.url + "?"@ + DEVICE_QUERY@
    }
}

/// Where a session stands.
#[derive(Clone, Copy, Debug, PartialEq, Eq, Structural)]
pub enum Phase {
    /// The socket is not open yet.
    Connecting,
    /// Messages are read and the control flags are watched.
    Streaming,
    /// The session is over; nothing is processed any more.
    Closing,
}

/// One upstream session.
pub struct TeamsAPI {
    /// The presence snapshot of this session.
    pub teams_states: TeamsStates,
    /// The address to connect to.
    pub url: String,
    /// The resync bit: set until the first meeting update has consumed it.
    pub force_update: bool,
    /// Whether a dispatch is under way. While it is, no message is
    /// applied, so that the sink sees the snapshot it was told of.
    pub dispatching: bool,
    /// Where the session stands.
    pub phase: Phase,
}

/// What happened.
pub enum ListenEvent {
    /// The socket is open.
    Connected,
    /// The socket could not be opened.
    ConnectFailed,
    /// A message came in.
    Message(Vec<u8>),
    /// Receiving failed for one message; it is passed over.
    MessageError,
    /// The dispatch that a message asked for has ended.
    Dispatched(Result<(), Error>),
    /// The control activity looks at the run flag before it waits.
    Poll { is_running: bool },
    /// The control activity woke up and looks at the mute request.
    Tick { toggle_mute: bool },
    /// The peer closed the socket.
    SocketClosed,
}

/// What the caller is to do.
pub enum ListenAction {
    /// Open the socket to this address.
    Connect(url::Url),
    /// A message was decoded and applied. Report each anomaly, persist
    /// the token if there is one, and dispatch the snapshot if it is due;
    /// report the end of the dispatch before the next message.
    Handle { anomalies: FlagSet, found: Detection },
    /// A dispatch is under way and the message was not applied. Hand it
    /// in again once the dispatch has ended.
    Deferred(Vec<u8>),
    /// Send this command to the meeting client and clear the mute request.
    SendCommand(String),
    /// Wait before the next look at the control flags.
    Sleep { seconds: u64 },
    /// The session is over, with this result.
    Close(Result<(), Error>),
    /// Nothing; wait for the next event.
    Nothing,
}

/// An action with its text as sequences of characters.
pub enum ListenActionView {
    Connect(url::Url),
    Handle {
        anomalies: FlagSet,
        changed: FlagSet,
        should_dispatch: bool,
        force_update: bool,
        token: Option<Seq<char>>,
    },
    Deferred(Seq<u8>),
    SendCommand(Seq<char>),
    Sleep { seconds: u64 },
    Close(Result<(), Seq<char>>),
    Nothing,
}

impl View for ListenAction {
    type V = ListenActionView;

    open spec fn view(&self) -> ListenActionView {
        match *self {
            ListenAction::Connect(url) => ListenActionView::Connect(url),
            ListenAction::Handle { anomalies, found } => ListenActionView::Handle {
                anomalies,
                changed: found.changed,
                should_dispatch: found.should_dispatch,
                force_update: found.force_update,
                token: option_text(found.token),
            },
            ListenAction::Deferred(data) => ListenActionView::Deferred(data@),
            ListenAction::SendCommand(command) => ListenActionView::SendCommand(command@),
            ListenAction::Sleep { seconds } => ListenActionView::Sleep { seconds },
            ListenAction::Close(Ok(())) => ListenActionView::Close(Ok(())),
            ListenAction::Close(Err(error)) => ListenActionView::Close(Err(error@)),
            ListenAction::Nothing => ListenActionView::Nothing,
        }
    }
}

/// The values of a session that its events can change.
#[derive(Clone, Copy, Debug, PartialEq, Eq, Structural)]
pub struct SessionView {
    pub teams_states: TeamsStates,
    pub force_update: bool,
    pub dispatching: bool,
    pub phase: Phase,
}

/// The flags that an event does not report: its decoding anomalies.
pub open spec fn anomalies_of(event: UpstreamEventView) -> FlagSet {
    match event {
        UpstreamEventView::MeetingUpdate(update) => update.unreported(),
        _ => FlagSet::none(),
    }
}

/// The session and the action that follow a message which is applied.
pub open spec fn message_applied(session: SessionView, data: Seq<u8>) -> (
    SessionView,
    ListenActionView,
) {
    let upstream = decoded(lossy_text(data));
    let should_dispatch = dispatch_due(session.teams_states, session.force_update, upstream);
    (
        SessionView {
            teams_states: snapshot_after(session.teams_states, upstream),
            force_update: force_after(session.force_update, upstream),
            dispatching: should_dispatch,
            ..session
        },
        ListenActionView::Handle {
            anomalies: anomalies_of(upstream),
            changed: changed_flags(session.teams_states, upstream),
            should_dispatch,
            force_update: upstream is MeetingUpdate && session.force_update,
            token: token_of(upstream),
        },
    )
}

/// The manager's rule for a session that is streaming: the session and the
/// action that follow an event.
///
/// A message is decoded and applied, unless a dispatch is under way: then
/// it is handed back. The dispatch that a message asked for is under way
/// until its end is reported; its failure ends the session.
pub open spec fn streaming_next(session: SessionView, event: ListenEvent) -> (
    SessionView,
    ListenActionView,
) {
    match event {
        ListenEvent::Message(data) => if session.dispatching {
            (session, ListenActionView::Deferred(data@))
        } else {
            message_applied(session, data@)
        },
        ListenEvent::Dispatched(result) => if !session.dispatching {
            (session, ListenActionView::Nothing)
        } else {
            match result {
                Ok(_) => (SessionView { dispatching: false, ..session }, ListenActionView::Nothing),
                Err(error) => (
                    SessionView { dispatching: false, phase: Phase::Closing, ..session },
                    ListenActionView::Close(Err(error@)),
                ),
            }
        },
        ListenEvent::Poll { is_running } => if is_running {
            (session, ListenActionView::Sleep { seconds: TICK_SECS })
        } else {
            (SessionView { phase: Phase::Closing, ..session }, ListenActionView::Close(Ok(())))
        },
        ListenEvent::Tick { toggle_mute } => if toggle_mute {
            (session, ListenActionView::SendCommand(TOGGLE_MUTE_COMMAND@))
        } else {
            (session, ListenActionView::Nothing)
        },
        ListenEvent::SocketClosed => (
            SessionView { phase: Phase::Closing, ..session },
            ListenActionView::Close(Ok(())),
        ),
        _ => (session, ListenActionView::Nothing),
    }
}

/// The manager's rule: the session and the action that follow an event.
///
/// While connecting, only the outcome of the connect counts: success starts
/// the stream with a fresh snapshot and the resync bit set, failure ends
/// the session. A closed session takes no event.
pub open spec fn listen_next(session: SessionView, event: ListenEvent) -> (
    SessionView,
    ListenActionView,
) {
    match session.phase {
        Phase::Connecting => match event {
            ListenEvent::Connected => (
                SessionView {
                    teams_states: TeamsStates::initial(),
                    force_update: true,
                    dispatching: false,
                    phase: Phase::Streaming,
                },
                ListenActionView::Nothing,
            ),
            ListenEvent::ConnectFailed => (
                SessionView { phase: Phase::Closing, ..session },
                ListenActionView::Close(Err(CONNECT_FAILED@)),
            ),
            _ => (session, ListenActionView::Nothing),
        },
        Phase::Streaming => streaming_next(session, event),
        Phase::Closing => (session, ListenActionView::Nothing),
    }
}

/// The first action of a session: connect to its address, or end at once
/// where the address is no URL.
pub open spec fn listen_first(session: SessionView, url: Seq<char>) -> (SessionView, ListenActionView) {
    match session.phase {
        Phase::Connecting => match address::parsed(url) {
            Ok(parsed) => (session, ListenActionView::Connect(parsed)),
            Err(error) => (
                SessionView { phase: Phase::Closing, ..session },
                ListenActionView::Close(Err(parse_error_message(error))),
            ),
        },
        _ => (session, ListenActionView::Nothing),
    }
}

impl TeamsAPI {
    /// The values of the session that its events can change.
    pub open spec fn session(self) -> SessionView {
        SessionView {
            teams_states: self.teams_states,
            force_update: self.force_update,
            dispatching: self.dispatching,
            phase: self.phase,
        }
    }

    /// A session for the given settings: every flag off, the resync bit
    /// set, not yet connected.
    pub fn new(conf: &TeamsConfiguration) -> (api: TeamsAPI)
        ensures
            api.url@ == listen_url(conf@),
            api.session() == (SessionView {
                teams_states: TeamsStates::initial(),
                force_update: true,
                dispatching: false,
                phase: Phase::Connecting,
            }),
    {
        let mut url = conf.url.clone();
        url.append("?");
        if !conf.api_token.as_str().is_empty() {
            url.append("token=");
            url.append(conf.api_token.as_str());
            url.append("&");
        }
        url.append(DEVICE_QUERY);
        proof {
            assert(url@ =~= listen_url(conf@));
        }
        TeamsAPI {
            teams_states: TeamsStates::new(),
            url,
            force_update: true,
            dispatching: false,
            phase: Phase::Connecting,
        }
    }

    /// Begins the session: yields the address to connect to. An address
    /// that is no URL ends the session with the parse error.
    pub fn start_listening(&mut self) -> (action: ListenAction)
        ensures
            final(self).url == old(self).url,
            (final(self).session(), action@) == listen_first(old(self).session(), old(self).url@),
    {
        match self.phase {
            Phase::Connecting => match address::parse(self.url.as_str()) {
                Ok(parsed) => ListenAction::Connect(parsed),
                Err(error) => {
                    self.phase = Phase::Closing;
                    ListenAction::Close(Err(Error::from(error)))
                },
            },
            _ => ListenAction::Nothing,
        }
    }

    /// Takes an event of the session and decides what is to be done.
    ///
    /// A message is decoded and applied to the snapshot; the action tells
    /// what came of it. While the dispatch that a message asked for is
    /// under way, no further message is applied. A dispatch that failed
    /// ends the session with its error. The control activity is told to
    /// wait while the bridge runs and to send the mute command where one
    /// was asked for.
    pub fn on_event(&mut self, event: ListenEvent) -> (action: ListenAction)
        ensures
            final(self).url == old(self).url,
            (final(self).session(), action@) == listen_next(old(self).session(), event),
    {
        let session = SessionView {
            teams_states: self.teams_states,
            force_update: self.force_update,
            dispatching: self.dispatching,
            phase: self.phase,
        };
        let (next, action) = decide(session, event);
        self.teams_states = next.teams_states;
        self.force_update = next.force_update;
        self.dispatching = next.dispatching;
        self.phase = next.phase;
        action
    }
}

fn on_message(session: SessionView, data: Vec<u8>) -> (next: (SessionView, ListenAction))
    ensures
        (next.0, next.1@) == message_applied(session, data@),
{
    let text = utf8_lossy(data.as_slice());
    let upstream = decode(text.as_str());
    let anomalies = match &upstream {
        UpstreamEvent::MeetingUpdate(update) => update.missing(),
        _ => FlagSet::empty(),
    };
    let mut teams_states = session.teams_states;
    let mut force_update = session.force_update;
    let found = apply(&mut teams_states, &mut force_update, &upstream);
    let dispatching = found.should_dispatch;
    (
        SessionView { teams_states, force_update, dispatching, phase: session.phase },
        ListenAction::Handle { anomalies, found },
    )
}

fn on_dispatched(session: SessionView, result: Result<(), Error>) -> (next: (
    SessionView,
    ListenAction,
))
    ensures
        (next.0, next.1@) == streaming_next(session, ListenEvent::Dispatched(result)),
{
    if !session.dispatching {
        return (session, ListenAction::Nothing);
    }
    match result {
        Ok(_) => (SessionView { dispatching: false, ..session }, ListenAction::Nothing),
        Err(error) => (
            SessionView { dispatching: false, phase: Phase::Closing, ..session },
            ListenAction::Close(Err(error)),
        ),
    }
}

fn on_control(session: SessionView, event: ListenEvent) -> (next: (SessionView, ListenAction))
    requires
        !(event is Message),
        !(event is Dispatched),
    ensures
        (next.0, next.1@) == streaming_next(session, event),
{
    match event {
        ListenEvent::Poll { is_running } => {
            if is_running {
                (session, ListenAction::Sleep { seconds: TICK_SECS })
            } else {
                (SessionView { phase: Phase::Closing, ..session }, ListenAction::Close(Ok(())))
            }
        },
        ListenEvent::Tick { toggle_mute } => {
            if toggle_mute {
                (session, ListenAction::SendCommand(String::from_str(TOGGLE_MUTE_COMMAND)))
            } else {
                (session, ListenAction::Nothing)
            }
        },
        ListenEvent::SocketClosed => (
            SessionView { phase: Phase::Closing, ..session },
            ListenAction::Close(Ok(())),
        ),
        _ => (session, ListenAction::Nothing),
    }
}

fn while_streaming(session: SessionView, event: ListenEvent) -> (next: (SessionView, ListenAction))
    ensures
        (next.0, next.1@) == streaming_next(session, event),
{
    match event {
        ListenEvent::Message(data) => {
            if session.dispatching {
                (session, ListenAction::Deferred(data))
            } else {
                on_message(session, data)
            }
        },
        ListenEvent::Dispatched(result) => on_dispatched(session, result),
        other => on_control(session, other),
    }
}

fn decide(session: SessionView, event: ListenEvent) -> (next: (SessionView, ListenAction))
    ensures
        (next.0, next.1@) == listen_next(session, event),
{
    match session.phase {
        Phase::Connecting => match event {
            ListenEvent::Connected => (
                SessionView {
                    teams_states: TeamsStates::new(),
                    force_update: true,
                    dispatching: false,
                    phase: Phase::Streaming,
                },
                ListenAction::Nothing,
            ),
            ListenEvent::ConnectFailed => (
                SessionView { phase: Phase::Closing, ..session },
                ListenAction::Close(Err(Error::new(String::from_str(CONNECT_FAILED)))),
            ),
            _ => (session, ListenAction::Nothing),
        },
        Phase::Streaming => while_streaming(session, event),
        Phase::Closing => (session, ListenAction::Nothing),
    }
}

/// A closed session stays closed and asks for nothing, whatever comes.
pub proof fn closed_is_final(session: SessionView, event: ListenEvent)
    requires
        session.phase == Phase::Closing,
    ensures
        listen_next(session, event) == (session, ListenActionView::Nothing),
{
}

/// While a dispatch is under way the snapshot rests: whatever event comes
/// in, a streaming session keeps every flag and the resync bit as they
/// were when the dispatch was asked for, until the end of the dispatch is
/// reported.
pub proof fn snapshot_rests_during_dispatch(session: SessionView, event: ListenEvent)
    requires
        session.phase == Phase::Streaming,
        session.dispatching,
    ensures
        listen_next(session, event).0.teams_states == session.teams_states,
        listen_next(session, event).0.force_update == session.force_update,
        listen_next(session, event).0.dispatching == !(event is Dispatched),
        !(listen_next(session, event).1 is Handle),
{
}

/// A dispatch is asked for exactly by a message that is applied and that
/// is due for it; from then on it is under way.
pub proof fn dispatch_begins_with_its_message(session: SessionView, data: Seq<u8>)
    ensures
        ({
            let (after, action) = message_applied(session, data);
            &&& action is Handle
            &&& after.dispatching == action->Handle_should_dispatch
            &&& after.teams_states == snapshot_after(session.teams_states, decoded(lossy_text(data)))
        }),
{
}

} // verus!
