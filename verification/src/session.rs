//! The life of a bridge as a state machine.
//!
//! A [`Session`] never touches a socket. At every moment it names one
//! [`Action`] for its driver to perform; the driver performs it and reports
//! what happened as an [`Event`], upon which the session moves on:
//!
//! ```text
//! Disconnected --connect--> Connecting --subscribe--> Subscribed --announce--> Running
//! ```
//!
//! A failure of one of these three steps halts the session for good. Once
//! running, the session polls the transport. A command on the command topic
//! leads through a door-control call and a state publish back to polling; a
//! transport error is reported and polling goes on. Reconnecting is left to
//! the transport: the session neither subscribes nor announces a second time.
//!
//! If the state cannot be published after the door has moved, the session by
//! default reports that and goes on; [`Session::halting_on_report_failure`]
//! makes it halt instead.

use vstd::prelude::*;
use vstd::string::*;
use crate::command::{
    conclude, conclude_spec, decode_spec, mode_spec, outcome_spec, request_spec, state_label_spec,
    translate, translate_spec, Command, CommandError, CommandErrorView, CommandOutcome,
    CommandOutcomeView, Decoded, DoorRequest, Translation, TranslationView,
};
use crate::config::{BridgeConfig, BridgeConfigView};
use crate::credentials::{
    resolve, resolve_spec, CredentialSource, CredentialSourceView, CredentialsView, ResolveError,
    ResolvedBrokerCredentials,
};
use crate::discovery::{discovery_spec, discovery_text, DiscoveryPayload, DiscoveryPayloadView};
use crate::error::ErrorKind;
use crate::topics::{derive_spec, TopicSet, TopicSetView};

verus! {

/// Seconds of silence after which the broker is pinged.
pub const KEEP_ALIVE_SECS: u64 = 5;

/// Delivery guarantee of a subscription or a publish.
#[derive(Clone, Copy, PartialEq, Eq, Debug, Structural)]
pub enum QoS {
    AtMostOnce,
    AtLeastOnce,
}

/// With what a connection to the broker is opened.
#[derive(Clone, PartialEq, Eq, Debug)]
pub struct ConnectOptions {
    pub client_id: String,
    pub host: String,
    pub port: u16,
    pub keep_alive_secs: u64,
    pub username: String,
    pub password: String,
}

/// Mathematical model of [`ConnectOptions`].
pub struct ConnectOptionsView {
    pub client_id: Seq<char>,
    pub host: Seq<char>,
    pub port: u16,
    pub keep_alive_secs: u64,
    pub username: Seq<char>,
    pub password: Seq<char>,
}

impl View for ConnectOptions {
    type V = ConnectOptionsView;

    open spec fn view(&self) -> ConnectOptionsView {
        ConnectOptionsView {
            client_id: self.client_id@,
            host: self.host@,
            port: self.port,
            keep_alive_secs: self.keep_alive_secs,
            username: self.username@,
            password: self.password@,
        }
    }
}

/// One message to publish.
#[derive(Clone, PartialEq, Eq, Debug)]
pub struct Publication {
    pub topic: String,
    pub payload: String,
    pub qos: QoS,
    pub retained: bool,
}

/// Mathematical model of a [`Publication`].
pub struct PublicationView {
    pub topic: Seq<char>,
    pub payload: Seq<char>,
    pub qos: QoS,
    pub retained: bool,
}

impl View for Publication {
    type V = PublicationView;

    open spec fn view(&self) -> PublicationView {
        PublicationView {
            topic: self.topic@,
            payload: self.payload@,
            qos: self.qos,
            retained: self.retained,
        }
    }
}

/// An operation on the broker whose failure ends a session.
#[derive(Clone, Copy, PartialEq, Eq, Debug, Structural)]
pub enum Operation {
    /// Opening the connection.
    Connect,
    /// Subscribing to the command topic.
    Subscribe,
    /// Publishing the discovery record.
    Announce,
    /// Publishing the state of the door.
    ReportState,
}

/// The failure that ended a session.
#[derive(Clone, PartialEq, Eq, Debug)]
pub struct TransportFailure {
    /// What was being done.
    pub operation: Operation,
    /// What the transport said.
    pub cause: String,
}

/// Mathematical model of a [`TransportFailure`].
pub struct TransportFailureView {
    pub operation: Operation,
    pub cause: Seq<char>,
}

impl View for TransportFailure {
    type V = TransportFailureView;

    open spec fn view(&self) -> TransportFailureView {
        TransportFailureView { operation: self.operation, cause: self.cause@ }
    }
}

impl TransportFailure {
    /// The class of this failure.
    pub fn kind(&self) -> (kind: ErrorKind)
        ensures
            kind == ErrorKind::Transport,
    {
        ErrorKind::Transport
    }
}

/// What the driver has to do next.
#[derive(Clone, PartialEq, Eq, Debug)]
pub enum Action {
    /// Open a connection to the broker.
    Connect(ConnectOptions),
    /// Subscribe to a topic.
    Subscribe { topic: String, qos: QoS },
    /// Publish a message.
    Publish(Publication),
    /// Wait for the next event of the transport.
    Poll,
    /// Make a door-control call on the controller.
    SetDoor(DoorRequest),
    /// Give up: the session has ended with this failure.
    Halt(TransportFailure),
}

/// Mathematical model of an [`Action`].
pub enum ActionView {
    Connect(ConnectOptionsView),
    Subscribe { topic: Seq<char>, qos: QoS },
    Publish(PublicationView),
    Poll,
    SetDoor(DoorRequest),
    Halt(TransportFailureView),
}

impl View for Action {
    type V = ActionView;

    open spec fn view(&self) -> ActionView {
        match self {
            Action::Connect(options) => ActionView::Connect(options@),
            Action::Subscribe { topic, qos } => ActionView::Subscribe { topic: topic@, qos: *qos },
            Action::Publish(publication) => ActionView::Publish(publication@),
            Action::Poll => ActionView::Poll,
            Action::SetDoor(request) => ActionView::SetDoor(*request),
            Action::Halt(failure) => ActionView::Halt(failure@),
        }
    }
}

/// What came of the action that the driver performed.
#[derive(Clone, PartialEq, Eq, Debug)]
pub enum Event {
    /// It succeeded. For a poll: the transport delivered something that is
    /// no publish.
    Completed,
    /// It failed, for the cause given. For a poll: the transport reported an
    /// error.
    Failed(String),
    /// A poll delivered a publish.
    Message { topic: String, payload: Vec<u8> },
}

/// Mathematical model of an [`Event`].
pub enum EventView {
    Completed,
    Failed(Seq<char>),
    Message { topic: Seq<char>, payload: Seq<u8> },
}

impl View for Event {
    type V = EventView;

    open spec fn view(&self) -> EventView {
        match self {
            Event::Completed => EventView::Completed,
            Event::Failed(cause) => EventView::Failed(cause@),
            Event::Message { topic, payload } => EventView::Message {
                topic: topic@,
                payload: payload@,
            },
        }
    }
}

/// Something for the driver to report. None of these ends the session.
#[derive(Clone, PartialEq, Eq, Debug)]
pub enum Notice {
    /// A poll failed for this cause.
    TransportError(String),
    /// The handling of a command ended like this.
    Dispatched(CommandOutcome),
    /// The door moved, but its state could not be published, for this cause.
    StateNotPublished(String),
}

/// Mathematical model of a [`Notice`].
pub enum NoticeView {
    TransportError(Seq<char>),
    Dispatched(CommandOutcomeView),
    StateNotPublished(Seq<char>),
}

impl View for Notice {
    type V = NoticeView;

    open spec fn view(&self) -> NoticeView {
        match self {
            Notice::TransportError(cause) => NoticeView::TransportError(cause@),
            Notice::Dispatched(outcome) => NoticeView::Dispatched(outcome@),
            Notice::StateNotPublished(cause) => NoticeView::StateNotPublished(cause@),
        }
    }
}

impl Notice {
    /// The class of the failure that this notice reports, if it reports one.
    /// A payload that is no command counts as a failure of translation; a
    /// command that was carried out is no failure.
    pub fn kind(&self) -> (kind: Option<ErrorKind>)
        ensures
            kind == notice_kind_spec(self@),
    {
        match self {
            Notice::TransportError(_) => Some(ErrorKind::Transport),
            Notice::StateNotPublished(_) => Some(ErrorKind::Transport),
            Notice::Dispatched(CommandOutcome::Error(e)) => match e {
                CommandError::MalformedPayload => Some(ErrorKind::Translation),
                CommandError::DeviceFailure(_) => Some(ErrorKind::Device),
            },
            Notice::Dispatched(CommandOutcome::Ignored) => Some(ErrorKind::Translation),
            Notice::Dispatched(_) => None,
        }
    }
}

/// The class of the failure that a notice reports. Only a command that was
/// carried out is none.
pub open spec fn notice_kind_spec(notice: NoticeView) -> Option<ErrorKind> {
    match notice {
        NoticeView::TransportError(_) => Some(ErrorKind::Transport),
        NoticeView::StateNotPublished(_) => Some(ErrorKind::Transport),
        NoticeView::Dispatched(CommandOutcomeView::Error(e)) => match e {
            CommandErrorView::MalformedPayload => Some(ErrorKind::Translation),
            CommandErrorView::DeviceFailure(_) => Some(ErrorKind::Device),
        },
        NoticeView::Dispatched(CommandOutcomeView::Ignored) => Some(ErrorKind::Translation),
        NoticeView::Dispatched(_) => None,
    }
}

/// The four states in which a session is seen from outside.
#[derive(Clone, Copy, PartialEq, Eq, Debug, Structural)]
pub enum Phase {
    Disconnected,
    Connecting,
    Subscribed,
    Running,
}

/// Where a session stands. Each stage waits for the outcome of one action.
#[derive(Clone, PartialEq, Eq, Debug)]
pub enum Stage {
    /// Nothing is open yet; the connection is to be opened.
    Disconnected,
    /// The connection is open; the command topic is to be subscribed to.
    Connecting,
    /// Subscribed; the discovery record is to be published.
    Subscribed,
    /// Announced; the transport is polled.
    Running,
    /// The last poll failed; the transport is polled again.
    Interrupted,
    /// A command arrived; the controller is to be called.
    Actuating(Command),
    /// The controller obeyed; the state is to be published.
    Reporting(Command),
    /// The session has ended.
    Halted(TransportFailure),
}

/// Mathematical model of a [`Stage`].
pub enum StageView {
    Disconnected,
    Connecting,
    Subscribed,
    Running,
    Interrupted,
    Actuating(Command),
    Reporting(Command),
    Halted(TransportFailureView),
}

impl View for Stage {
    type V = StageView;

    open spec fn view(&self) -> StageView {
        match self {
            Stage::Disconnected => StageView::Disconnected,
            Stage::Connecting => StageView::Connecting,
            Stage::Subscribed => StageView::Subscribed,
            Stage::Running => StageView::Running,
            Stage::Interrupted => StageView::Interrupted,
            Stage::Actuating(command) => StageView::Actuating(*command),
            Stage::Reporting(command) => StageView::Reporting(*command),
            Stage::Halted(failure) => StageView::Halted(failure@),
        }
    }
}

/// The phase to which a stage belongs.
pub open spec fn phase_spec(stage: StageView) -> Phase {
    match stage {
        StageView::Disconnected => Phase::Disconnected,
        StageView::Connecting => Phase::Connecting,
        StageView::Subscribed => Phase::Subscribed,
        StageView::Running => Phase::Running,
        StageView::Actuating(_) => Phase::Running,
        StageView::Reporting(_) => Phase::Running,
        StageView::Interrupted => Phase::Disconnected,
        StageView::Halted(_) => Phase::Disconnected,
    }
}

/// Why a session could not be set up.
#[derive(Clone, Copy, PartialEq, Eq, Debug, Structural)]
pub enum ConfigError {
    /// The base topic is empty.
    EmptyBaseTopic,
}

impl ConfigError {
    /// The class of this failure.
    pub fn kind(self) -> (kind: ErrorKind)
        ensures
            kind == ErrorKind::Configuration,
    {
        ErrorKind::Configuration
    }
}

/// A bridge between one broker and one door.
pub struct Session {
    stage: Stage,
    base_topic: String,
    topics: TopicSet,
    name: String,
    door: u8,
    options: ConnectOptions,
    halt_on_report_failure: bool,
}

/// Mathematical model of a [`Session`].
pub struct SessionView {
    /// Where the session stands.
    pub stage: StageView,
    /// The base topic it was set up with.
    pub base_topic: Seq<char>,
    /// Its three topics.
    pub topics: TopicSetView,
    /// Name of the door.
    pub name: Seq<char>,
    /// Number of the door.
    pub door: u8,
    /// With what the connection is opened.
    pub options: ConnectOptionsView,
    /// Whether a state that cannot be published ends the session.
    pub halt_on_report_failure: bool,
}

impl SessionView {
    /// What holds of every session: its topics are those of its base topic,
    /// which is not empty, and its connection is kept alive every five
    /// seconds.
    pub open spec fn wf(self) -> bool {
        &&& self.base_topic.len() > 0
        &&& self.topics == derive_spec(self.base_topic)
        &&& self.options.keep_alive_secs == KEEP_ALIVE_SECS
    }
}

/// With what a bridge of this configuration connects.
pub open spec fn options_spec(
    config: BridgeConfigView,
    credentials: CredentialsView,
) -> ConnectOptionsView {
    ConnectOptionsView {
        client_id: config.client_id,
        host: credentials.host,
        port: credentials.port,
        keep_alive_secs: KEEP_ALIVE_SECS,
        username: credentials.username,
        password: credentials.password,
    }
}

/// The session that [`Session::new`] sets up.
pub open spec fn initial_spec(config: BridgeConfigView, credentials: CredentialsView) -> SessionView {
    SessionView {
        stage: StageView::Disconnected,
        base_topic: config.base_topic,
        topics: derive_spec(config.base_topic),
        name: config.name,
        door: config.door,
        options: options_spec(config, credentials),
        halt_on_report_failure: false,
    }
}

/// The discovery record as it is published: retained, to the config topic.
pub open spec fn announcement_spec(s: SessionView) -> PublicationView {
    PublicationView {
        topic: s.topics.config,
        payload: discovery_text(discovery_spec(s.topics, s.name)),
        qos: QoS::AtLeastOnce,
        retained: true,
    }
}

/// The state of the door as it is published after `command`: not retained,
/// to the state topic.
pub open spec fn report_spec(s: SessionView, command: Command) -> PublicationView {
    PublicationView {
        topic: s.topics.state,
        payload: state_label_spec(command),
        qos: QoS::AtLeastOnce,
        retained: false,
    }
}

/// The action that a session asks for.
pub open spec fn action_spec(s: SessionView) -> ActionView {
    match s.stage {
        StageView::Disconnected => ActionView::Connect(s.options),
        StageView::Connecting => ActionView::Subscribe {
            topic: s.topics.command,
            qos: QoS::AtMostOnce,
        },
        StageView::Subscribed => ActionView::Publish(announcement_spec(s)),
        StageView::Running => ActionView::Poll,
        StageView::Interrupted => ActionView::Poll,
        StageView::Actuating(command) => ActionView::SetDoor(request_spec(s.door, command)),
        StageView::Reporting(command) => ActionView::Publish(report_spec(s, command)),
        StageView::Halted(failure) => ActionView::Halt(failure),
    }
}

/// The stage that follows a message while the transport is polled: a command
/// on the command topic waits for the controller, anything else is passed
/// over.
pub open spec fn dispatch_stage(s: SessionView, topic: Seq<char>, payload: Seq<u8>) -> StageView {
    if topic == s.topics.command {
        match decode_spec(payload) {
            Decoded::Known(command) => StageView::Actuating(command),
            _ => StageView::Running,
        }
    } else {
        StageView::Running
    }
}

/// The notice that a message gives rise to while the transport is polled:
/// the outcome of a payload on the command topic that is no command.
pub open spec fn dispatch_notice(s: SessionView, topic: Seq<char>, payload: Seq<u8>) -> Option<
    NoticeView,
> {
    if topic == s.topics.command {
        match translate_spec(s.door, payload) {
            TranslationView::Invoke(_) => None,
            TranslationView::Settled(outcome) => Some(NoticeView::Dispatched(outcome)),
        }
    } else {
        None
    }
}

/// The stage that follows stage `s.stage` upon `event`.
pub open spec fn next_stage(s: SessionView, event: EventView) -> StageView {
    match s.stage {
        StageView::Disconnected => match event {
            EventView::Completed => StageView::Connecting,
            EventView::Failed(cause) => StageView::Halted(
                TransportFailureView { operation: Operation::Connect, cause },
            ),
            EventView::Message { .. } => s.stage,
        },
        StageView::Connecting => match event {
            EventView::Completed => StageView::Subscribed,
            EventView::Failed(cause) => StageView::Halted(
                TransportFailureView { operation: Operation::Subscribe, cause },
            ),
            EventView::Message { .. } => s.stage,
        },
        StageView::Subscribed => match event {
            EventView::Completed => StageView::Running,
            EventView::Failed(cause) => StageView::Halted(
                TransportFailureView { operation: Operation::Announce, cause },
            ),
            EventView::Message { .. } => s.stage,
        },
        StageView::Running | StageView::Interrupted => match event {
            EventView::Completed => StageView::Running,
            EventView::Failed(_) => StageView::Interrupted,
            EventView::Message { topic, payload } => dispatch_stage(s, topic, payload),
        },
        StageView::Actuating(command) => match event {
            EventView::Completed => StageView::Reporting(command),
            EventView::Failed(_) => StageView::Running,
            EventView::Message { .. } => s.stage,
        },
        StageView::Reporting(_) => match event {
            EventView::Completed => StageView::Running,
            EventView::Failed(cause) => if s.halt_on_report_failure {
                StageView::Halted(
                    TransportFailureView { operation: Operation::ReportState, cause },
                )
            } else {
                StageView::Running
            },
            EventView::Message { .. } => s.stage,
        },
        StageView::Halted(_) => s.stage,
    }
}

/// What there is to report when stage `s.stage` meets `event`.
pub open spec fn notice_spec(s: SessionView, event: EventView) -> Option<NoticeView> {
    match s.stage {
        StageView::Running | StageView::Interrupted => match event {
            EventView::Completed => None,
            EventView::Failed(cause) => Some(NoticeView::TransportError(cause)),
            EventView::Message { topic, payload } => dispatch_notice(s, topic, payload),
        },
        StageView::Actuating(command) => match event {
            EventView::Completed => Some(
                NoticeView::Dispatched(conclude_spec(command, None)),
            ),
            EventView::Failed(cause) => Some(
                NoticeView::Dispatched(conclude_spec(command, Some(cause))),
            ),
            EventView::Message { .. } => None,
        },
        StageView::Reporting(_) => match event {
            EventView::Failed(cause) => if s.halt_on_report_failure {
                None
            } else {
                Some(NoticeView::StateNotPublished(cause))
            },
            _ => None,
        },
        _ => None,
    }
}

/// The session after `event`: only its stage changes.
pub open spec fn step_spec(s: SessionView, event: EventView) -> SessionView {
    SessionView { stage: next_stage(s, event), ..s }
}

/// The model of an optional notice.
pub open spec fn notice_view(notice: Option<Notice>) -> Option<NoticeView> {
    match notice {
        Some(n) => Some(n@),
        None => None,
    }
}

/// The model of a result of [`Session::new`].
pub open spec fn created_view(created: Result<Session, ConfigError>) -> Result<
    SessionView,
    ConfigError,
> {
    match created {
        Ok(session) => Ok(session@),
        Err(e) => Err(e),
    }
}

impl View for Session {
    type V = SessionView;

    closed spec fn view(&self) -> SessionView {
        SessionView {
            stage: self.stage@,
            base_topic: self.base_topic@,
            topics: self.topics@,
            name: self.name@,
            door: self.door,
            options: self.options@,
            halt_on_report_failure: self.halt_on_report_failure,
        }
    }
}

impl Session {
    /// Sets up a session for the bridge that `config` describes, to connect
    /// with `credentials`. Nothing is opened yet. A configuration whose base
    /// topic is empty is refused.
    pub fn new(config: &BridgeConfig, credentials: ResolvedBrokerCredentials) -> (created: Result<
        Session,
        ConfigError,
    >)
        ensures
            created_view(created) == if config@.wf() {
                Ok::<SessionView, ConfigError>(initial_spec(config@, credentials@))
            } else {
                Err::<SessionView, ConfigError>(ConfigError::EmptyBaseTopic)
            },
    {
        if !config.is_valid() {
            return Err(ConfigError::EmptyBaseTopic);
        }
        let options = ConnectOptions {
            client_id: config.client_id.clone(),
            host: credentials.host,
            port: credentials.port,
            keep_alive_secs: KEEP_ALIVE_SECS,
            username: credentials.username,
            password: credentials.password,
        };
        Ok(
            Session {
                stage: Stage::Disconnected,
                base_topic: config.base_topic.clone(),
                topics: crate::topics::derive(config.base_topic.as_str()),
                name: config.name.clone(),
                door: config.door,
                options,
                halt_on_report_failure: false,
            },
        )
    }

    /// The same session, except that it halts where the state of the door
    /// cannot be published.
    pub fn halting_on_report_failure(self) -> (session: Session)
        ensures
            session@ == (SessionView { halt_on_report_failure: true, ..self@ }),
    {
        Session {
            stage: self.stage,
            base_topic: self.base_topic,
            topics: self.topics,
            name: self.name,
            door: self.door,
            options: self.options,
            halt_on_report_failure: true,
        }
    }

    /// Where the session stands.
    pub fn stage(&self) -> (stage: Stage)
        ensures
            stage@ == self@.stage,
    {
        match &self.stage {
            Stage::Disconnected => Stage::Disconnected,
            Stage::Connecting => Stage::Connecting,
            Stage::Subscribed => Stage::Subscribed,
            Stage::Running => Stage::Running,
            Stage::Interrupted => Stage::Interrupted,
            Stage::Actuating(command) => Stage::Actuating(*command),
            Stage::Reporting(command) => Stage::Reporting(*command),
            Stage::Halted(failure) => Stage::Halted(
                TransportFailure { operation: failure.operation, cause: failure.cause.clone() },
            ),
        }
    }

    /// The phase in which the session is.
    pub fn phase(&self) -> (phase: Phase)
        ensures
            phase == phase_spec(self@.stage),
    {
        match &self.stage {
            Stage::Disconnected => Phase::Disconnected,
            Stage::Connecting => Phase::Connecting,
            Stage::Subscribed => Phase::Subscribed,
            Stage::Running => Phase::Running,
            Stage::Actuating(_) => Phase::Running,
            Stage::Reporting(_) => Phase::Running,
            Stage::Interrupted => Phase::Disconnected,
            Stage::Halted(_) => Phase::Disconnected,
        }
    }

    /// The topics of the session.
    pub fn topics(&self) -> (topics: TopicSet)
        ensures
            topics@ == self@.topics,
    {
        self.topics.duplicate()
    }

    /// What the driver has to do now.
    pub fn action(&self) -> (action: Action)
        ensures
            action@ == action_spec(self@),
    {
        match &self.stage {
            Stage::Disconnected => Action::Connect(
                ConnectOptions {
                    client_id: self.options.client_id.clone(),
                    host: self.options.host.clone(),
                    port: self.options.port,
                    keep_alive_secs: self.options.keep_alive_secs,
                    username: self.options.username.clone(),
                    password: self.options.password.clone(),
                },
            ),
            Stage::Connecting => Action::Subscribe {
                topic: self.topics.command.clone(),
                qos: QoS::AtMostOnce,
            },
            Stage::Subscribed => {
                let record = DiscoveryPayload::new(&self.topics, self.name.as_str());
                Action::Publish(
                    Publication {
                        topic: self.topics.config.clone(),
                        payload: record.serialize(),
                        qos: QoS::AtLeastOnce,
                        retained: true,
                    },
                )
            },
            Stage::Running => Action::Poll,
            Stage::Interrupted => Action::Poll,
            Stage::Actuating(command) => Action::SetDoor(command.request(self.door)),
            Stage::Reporting(command) => Action::Publish(
                Publication {
                    topic: self.topics.state.clone(),
                    payload: String::from_str(command.state_label()),
                    qos: QoS::AtLeastOnce,
                    retained: false,
                },
            ),
            Stage::Halted(failure) => Action::Halt(
                TransportFailure { operation: failure.operation, cause: failure.cause.clone() },
            ),
        }
    }

    /// Takes in what came of the action that [`Session::action`] asked for,
    /// and moves on. Returns what there is to report. An event that does not
    /// answer the action asked for changes nothing.
    pub fn step(&mut self, event: Event) -> (notice: Option<Notice>)
        ensures
            final(self)@ == step_spec(old(self)@, event@),
            notice_view(notice) == notice_spec(old(self)@, event@),
    {
        let mut next: Option<Stage> = None;
        let mut notice: Option<Notice> = None;
        match &self.stage {
            Stage::Disconnected => match event {
                Event::Completed => { next = Some(Stage::Connecting); },
                Event::Failed(cause) => {
                    next = Some(halted(Operation::Connect, cause));
                },
                Event::Message { .. } => {},
            },
            Stage::Connecting => match event {
                Event::Completed => { next = Some(Stage::Subscribed); },
                Event::Failed(cause) => {
                    next = Some(halted(Operation::Subscribe, cause));
                },
                Event::Message { .. } => {},
            },
            Stage::Subscribed => match event {
                Event::Completed => { next = Some(Stage::Running); },
                Event::Failed(cause) => {
                    next = Some(halted(Operation::Announce, cause));
                },
                Event::Message { .. } => {},
            },
            Stage::Running | Stage::Interrupted => match event {
                Event::Completed => { next = Some(Stage::Running); },
                Event::Failed(cause) => {
                    next = Some(Stage::Interrupted);
                    notice = Some(Notice::TransportError(cause));
                },
                Event::Message { topic, payload } => {
                    next = Some(Stage::Running);
                    if topic == self.topics.command {
                        match translate(self.door, payload.as_slice()) {
                            Translation::Invoke(request) => {
                                next = Some(Stage::Actuating(request.command()));
                            },
                            Translation::Settled(outcome) => {
                                notice = Some(Notice::Dispatched(outcome));
                            },
                        }
                    }
                },
            },
            Stage::Actuating(command) => match event {
                Event::Completed => {
                    next = Some(Stage::Reporting(*command));
                    notice = Some(Notice::Dispatched(conclude(*command, Ok(()))));
                },
                Event::Failed(cause) => {
                    next = Some(Stage::Running);
                    notice = Some(Notice::Dispatched(conclude(*command, Err(cause))));
                },
                Event::Message { .. } => {},
            },
            Stage::Reporting(_) => match event {
                Event::Completed => { next = Some(Stage::Running); },
                Event::Failed(cause) => {
                    if self.halt_on_report_failure {
                        next = Some(halted(Operation::ReportState, cause));
                    } else {
                        next = Some(Stage::Running);
                        notice = Some(Notice::StateNotPublished(cause));
                    }
                },
                Event::Message { .. } => {},
            },
            Stage::Halted(_) => {},
        }
        if let Some(stage) = next {
            self.stage = stage;
        }
        notice
    }
}

/// Why a bridge could not be started.
#[derive(Clone, Copy, PartialEq, Eq, Debug, Structural)]
pub enum StartupError {
    /// The configuration is unusable.
    Configuration(ConfigError),
    /// No broker settings could be had.
    Credentials(ResolveError),
}

impl StartupError {
    /// The class of this failure.
    pub open spec fn kind_spec(self) -> ErrorKind {
        match self {
            StartupError::Configuration(_) => ErrorKind::Configuration,
            StartupError::Credentials(e) => e.kind_spec(),
        }
    }

    /// The class of this failure.
    pub fn kind(self) -> (kind: ErrorKind)
        ensures
            kind == self.kind_spec(),
    {
        match self {
            StartupError::Configuration(e) => e.kind(),
            StartupError::Credentials(e) => e.kind(),
        }
    }
}

/// What [`start`] returns: the configuration is looked at first, then the
/// broker settings are resolved, and the session is set up with them.
pub open spec fn start_spec(config: BridgeConfigView, source: CredentialSourceView) -> Result<
    SessionView,
    StartupError,
> {
    if !config.wf() {
        Err(StartupError::Configuration(ConfigError::EmptyBaseTopic))
    } else {
        match resolve_spec(config, source) {
            Err(e) => Err(StartupError::Credentials(e)),
            Ok(credentials) => Ok(initial_spec(config, credentials)),
        }
    }
}

/// The model of a result of [`start`].
pub open spec fn started_view(started: Result<Session, StartupError>) -> Result<
    SessionView,
    StartupError,
> {
    match started {
        Ok(session) => Ok(session@),
        Err(e) => Err(e),
    }
}

/// Everything that comes before the first action of a bridge: checks the
/// configuration, resolves the broker settings from `source`, and sets up
/// the session. Any failure here means that the bridge does not start.
pub fn start(config: &BridgeConfig, source: CredentialSource) -> (started: Result<
    Session,
    StartupError,
>)
    ensures
        started_view(started) == start_spec(config@, source@),
{
    if !config.is_valid() {
        return Err(StartupError::Configuration(ConfigError::EmptyBaseTopic));
    }
    match resolve(config, source) {
        Err(e) => Err(StartupError::Credentials(e)),
        Ok(credentials) => match Session::new(config, credentials) {
            Ok(session) => Ok(session),
            Err(e) => Err(StartupError::Configuration(e)),
        },
    }
}

/// The stage of a session that `operation` has ended.
fn halted(operation: Operation, cause: String) -> (stage: Stage)
    ensures
        stage@ == StageView::Halted(TransportFailureView { operation, cause: cause@ }),
{
    Stage::Halted(TransportFailure { operation, cause })
}

/// A session that was just set up is well formed, and every step leaves it
/// so: a step changes the stage and nothing else.
pub proof fn lemma_session_wf(
    config: BridgeConfigView,
    credentials: CredentialsView,
    s: SessionView,
    event: EventView,
)
    ensures
        config.wf() ==> initial_spec(config, credentials).wf(),
        s.wf() ==> step_spec(s, event).wf(),
        step_spec(s, event) == (SessionView { stage: step_spec(s, event).stage, ..s }),
{
}

/// Startup goes in one order: connect with the resolved settings and a keep
/// alive of five seconds; then subscribe to the command topic, at most once;
/// then publish the discovery record to the config topic, retained and at
/// least once; then poll.
pub proof fn lemma_startup_order(config: BridgeConfigView, credentials: CredentialsView)
    ensures
        ({
            let s0 = initial_spec(config, credentials);
            let s1 = step_spec(s0, EventView::Completed);
            let s2 = step_spec(s1, EventView::Completed);
            let s3 = step_spec(s2, EventView::Completed);
            let topics = derive_spec(config.base_topic);
            &&& phase_spec(s0.stage) == Phase::Disconnected
            &&& action_spec(s0) == ActionView::Connect(
                ConnectOptionsView {
                    client_id: config.client_id,
                    host: credentials.host,
                    port: credentials.port,
                    keep_alive_secs: 5,
                    username: credentials.username,
                    password: credentials.password,
                },
            )
            &&& phase_spec(s1.stage) == Phase::Connecting
            &&& action_spec(s1) == ActionView::Subscribe {
                topic: topics.command,
                qos: QoS::AtMostOnce,
            }
            &&& phase_spec(s2.stage) == Phase::Subscribed
            &&& action_spec(s2) == ActionView::Publish(
                PublicationView {
                    topic: topics.config,
                    payload: discovery_text(
                        DiscoveryPayloadView {
                            command_topic: topics.command,
                            state_topic: topics.state,
                            name: config.name,
                        },
                    ),
                    qos: QoS::AtLeastOnce,
                    retained: true,
                },
            )
            &&& s3.stage == StageView::Running
            &&& phase_spec(s3.stage) == Phase::Running
            &&& action_spec(s3) == ActionView::Poll
            &&& notice_spec(s0, EventView::Completed) is None
            &&& notice_spec(s1, EventView::Completed) is None
            &&& notice_spec(s2, EventView::Completed) is None
        }),
{
}

/// The startup step that a stage waits for, if it waits for one.
pub open spec fn startup_operation(stage: StageView) -> Option<Operation> {
    match stage {
        StageView::Disconnected => Some(Operation::Connect),
        StageView::Connecting => Some(Operation::Subscribe),
        StageView::Subscribed => Some(Operation::Announce),
        _ => None,
    }
}

/// A failure of any startup step ends the session: it halts with the step
/// and the cause, asks only to give up, and no later event moves it.
pub proof fn lemma_startup_failure_is_fatal(s: SessionView, cause: Seq<char>, later: EventView)
    requires
        startup_operation(s.stage) is Some,
    ensures
        ({
            let halted = step_spec(s, EventView::Failed(cause));
            let failure = TransportFailureView {
                operation: startup_operation(s.stage)->0,
                cause,
            };
            &&& halted.stage == StageView::Halted(failure)
            &&& action_spec(halted) == ActionView::Halt(failure)
            &&& step_spec(halted, later) == halted
            &&& notice_spec(halted, later) is None
        }),
{
}

/// A session names no topic but its own three: it subscribes to the command
/// topic only, and publishes to the config topic and the state topic only.
pub proof fn lemma_topics_confined(s: SessionView)
    requires
        s.wf(),
    ensures
        action_spec(s) matches ActionView::Subscribe { topic, .. } ==> topic == s.base_topic
            + "/command"@,
        action_spec(s) matches ActionView::Publish(p) ==> p.topic == s.base_topic + "/config"@
            || p.topic == s.base_topic + "/state"@,
        action_spec(s) matches ActionView::Publish(p) ==> (p.retained <==> p.topic == s.base_topic
            + "/config"@),
{
    crate::topics::lemma_topics_distinct(s.base_topic);
}

/// A command on the command topic, met while polling, takes one round: one
/// call on the controller, then one publish of the new state to the state
/// topic, not retained and at least once, then polling again, in the very
/// state in which a session polls after startup. Nothing is remembered of
/// the command, so the same message arriving again takes the same round.
pub proof fn lemma_command_round(s: SessionView, payload: Seq<u8>, command: Command)
    requires
        s.stage == StageView::Running || s.stage == StageView::Interrupted,
        decode_spec(payload) == Decoded::Known(command),
    ensures
        ({
            let message = EventView::Message { topic: s.topics.command, payload };
            let s1 = step_spec(s, message);
            let s2 = step_spec(s1, EventView::Completed);
            let s3 = step_spec(s2, EventView::Completed);
            &&& notice_spec(s, message) is None
            &&& action_spec(s1) == ActionView::SetDoor(
                DoorRequest {
                    door: s.door,
                    mode: mode_spec(command),
                    delay_secs: 5,
                },
            )
            &&& notice_spec(s1, EventView::Completed) == Some(
                NoticeView::Dispatched(conclude_spec(command, None)),
            )
            &&& action_spec(s2) == ActionView::Publish(
                PublicationView {
                    topic: s.topics.state,
                    payload: state_label_spec(command),
                    qos: QoS::AtLeastOnce,
                    retained: false,
                },
            )
            &&& notice_spec(s2, EventView::Completed) is None
            &&& s3 == (SessionView { stage: StageView::Running, ..s })
            &&& action_spec(s3) == ActionView::Poll
            &&& step_spec(s3, message) == s1
        }),
{
}

/// When the controller fails, nothing is published: the failure is reported
/// with its cause and the session polls again.
pub proof fn lemma_device_failure(s: SessionView, command: Command, cause: Seq<char>)
    requires
        s.stage == StageView::Actuating(command),
    ensures
        ({
            let after = step_spec(s, EventView::Failed(cause));
            &&& after.stage == StageView::Running
            &&& action_spec(after) == ActionView::Poll
            &&& notice_spec(s, EventView::Failed(cause)) == Some(
                NoticeView::Dispatched(
                    CommandOutcomeView::Error(CommandErrorView::DeviceFailure(cause)),
                ),
            )
        }),
{
}

/// While polling, anything but a command leaves the session polling and
/// reaches neither the controller nor the broker: a message that is no
/// command, a message on another topic, an event that is no message, and a
/// transport error, which is reported.
pub proof fn lemma_polling_goes_on(s: SessionView, event: EventView)
    requires
        s.stage == StageView::Running || s.stage == StageView::Interrupted,
        event matches EventView::Message { topic, payload } ==> topic != s.topics.command
            || !(decode_spec(payload) is Known),
    ensures
        action_spec(step_spec(s, event)) == ActionView::Poll,
        event is Failed ==> step_spec(s, event).stage == StageView::Interrupted && notice_spec(
            s,
            event,
        ) == Some(NoticeView::TransportError(event->Failed_0)),
        !(event is Failed) ==> step_spec(s, event).stage == StageView::Running,
        event matches EventView::Message { topic, payload } ==> (topic == s.topics.command
            ==> notice_spec(s, event) == Some(
            NoticeView::Dispatched(outcome_spec(payload, None)),
        )) && (topic != s.topics.command ==> notice_spec(s, event) is None),
{
}

/// What happens when the state cannot be published after the door has
/// moved: by default it is reported and the session polls again; a session
/// made to halt there halts.
pub proof fn lemma_report_failure(s: SessionView, command: Command, cause: Seq<char>)
    requires
        s.stage == StageView::Reporting(command),
    ensures
        ({
            let after = step_spec(s, EventView::Failed(cause));
            &&& !s.halt_on_report_failure ==> after.stage == StageView::Running && notice_spec(
                s,
                EventView::Failed(cause),
            ) == Some(NoticeView::StateNotPublished(cause))
            &&& s.halt_on_report_failure ==> action_spec(after) == ActionView::Halt(
                TransportFailureView { operation: Operation::ReportState, cause },
            )
        }),
{
}

} // verus!
