use uhppote_mqtt::command::{
    Command, CommandError, CommandOutcome, DoorMode, DoorRequest,
};
use uhppote_mqtt::config::BridgeConfig;
use uhppote_mqtt::credentials::{
    BrokerDescriptor, CredentialField, CredentialSource, ResolveError, ResolvedBrokerCredentials,
    SupervisorReply,
};
use uhppote_mqtt::error::ErrorKind;
use uhppote_mqtt::session::{
    start, Action, ConfigError, ConnectOptions, Event, Notice, Operation, Phase, Publication, QoS,
    Session, Stage, StartupError, TransportFailure, KEEP_ALIVE_SECS,
};

fn config(base_topic: &str) -> BridgeConfig {
    BridgeConfig {
        device_id: 423196779,
        device_address: None,
        name: "Front door".to_string(),
        door: 2,
        client_id: "bridge-1".to_string(),
        broker_host: None,
        broker_port: None,
        broker_username: None,
        broker_password: None,
        base_topic: base_topic.to_string(),
    }
}

fn credentials() -> ResolvedBrokerCredentials {
    ResolvedBrokerCredentials {
        host: "broker.local".to_string(),
        port: 1883,
        username: "door".to_string(),
        password: "secret".to_string(),
    }
}

fn session() -> Session {
    Session::new(&config("uhppote"), credentials()).unwrap()
}

fn running() -> Session {
    let mut session = session();
    for _ in 0..3 {
        assert_eq!(session.step(Event::Completed), None);
    }
    assert_eq!(session.stage(), Stage::Running);
    session
}

fn message(topic: &str, payload: &[u8]) -> Event {
    Event::Message { topic: topic.to_string(), payload: payload.to_vec() }
}

fn failed(cause: &str) -> Event {
    Event::Failed(cause.to_string())
}

fn state_publish(label: &str) -> Action {
    Action::Publish(Publication {
        topic: "uhppote/state".to_string(),
        payload: label.to_string(),
        qos: QoS::AtLeastOnce,
        retained: false,
    })
}

#[test]
fn an_empty_base_topic_is_refused() {
    match Session::new(&config(""), credentials()) {
        Err(error) => {
            assert_eq!(error, ConfigError::EmptyBaseTopic);
            assert_eq!(error.kind(), ErrorKind::Configuration);
        }
        Ok(_) => panic!("a session was set up"),
    }
}

#[test]
fn a_new_session_is_disconnected_and_asks_to_connect() {
    let session = session();
    assert_eq!(session.stage(), Stage::Disconnected);
    assert_eq!(session.phase(), Phase::Disconnected);
    assert_eq!(KEEP_ALIVE_SECS, 5);
    assert_eq!(
        session.action(),
        Action::Connect(ConnectOptions {
            client_id: "bridge-1".to_string(),
            host: "broker.local".to_string(),
            port: 1883,
            keep_alive_secs: 5,
            username: "door".to_string(),
            password: "secret".to_string(),
        })
    );
}

#[test]
fn a_session_knows_its_topics() {
    let topics = session().topics();
    assert_eq!(topics.config, "uhppote/config");
    assert_eq!(topics.state, "uhppote/state");
    assert_eq!(topics.command, "uhppote/command");
}

#[test]
fn startup_subscribes_announces_and_polls() {
    let mut session = session();
    assert_eq!(session.step(Event::Completed), None);
    assert_eq!(session.phase(), Phase::Connecting);
    assert_eq!(
        session.action(),
        Action::Subscribe { topic: "uhppote/command".to_string(), qos: QoS::AtMostOnce }
    );
    assert_eq!(session.step(Event::Completed), None);
    assert_eq!(session.phase(), Phase::Subscribed);
    assert_eq!(
        session.action(),
        Action::Publish(Publication {
            topic: "uhppote/config".to_string(),
            payload: "{\"command_topic\": \"uhppote/command\", \"state_topic\": \"uhppote/state\", \"name\": \"Front door\" }"
                .to_string(),
            qos: QoS::AtLeastOnce,
            retained: true,
        })
    );
    assert_eq!(session.step(Event::Completed), None);
    assert_eq!(session.phase(), Phase::Running);
    assert_eq!(session.action(), Action::Poll);
}

#[test]
fn end_to_end_lock_publishes_locked_once() {
    let mut session = session();
    let mut published: Vec<Publication> = Vec::new();
    let mut subscribed: Vec<(String, QoS)> = Vec::new();
    let mut door_calls: Vec<DoorRequest> = Vec::new();
    let mut inbox = vec![message("uhppote/command", b"LOCK")];
    let mut polls = 0;
    loop {
        let event = match session.action() {
            Action::Connect(_) => Event::Completed,
            Action::Subscribe { topic, qos } => {
                assert!(published.is_empty());
                subscribed.push((topic, qos));
                Event::Completed
            }
            Action::Publish(publication) => {
                published.push(publication);
                Event::Completed
            }
            Action::SetDoor(request) => {
                door_calls.push(request);
                Event::Completed
            }
            Action::Poll => {
                polls += 1;
                match inbox.pop() {
                    Some(event) => event,
                    None => break,
                }
            }
            Action::Halt(failure) => panic!("halted: {:?}", failure),
        };
        session.step(event);
    }
    assert_eq!(polls, 2);
    assert_eq!(subscribed, vec![("uhppote/command".to_string(), QoS::AtMostOnce)]);
    assert_eq!(
        door_calls,
        vec![DoorRequest { door: 2, mode: DoorMode::Controlled, delay_secs: 5 }]
    );
    assert_eq!(published.len(), 2);
    assert_eq!(published[0].topic, "uhppote/config");
    assert!(published[0].retained);
    assert_eq!(published[0].qos, QoS::AtLeastOnce);
    let announced: serde_json::Value = serde_json::from_str(&published[0].payload).unwrap();
    assert_eq!(announced["command_topic"].as_str(), Some("uhppote/command"));
    assert_eq!(announced["state_topic"].as_str(), Some("uhppote/state"));
    assert_eq!(announced["name"].as_str(), Some("Front door"));
    assert_eq!(
        published[1],
        Publication {
            topic: "uhppote/state".to_string(),
            payload: "LOCKED".to_string(),
            qos: QoS::AtLeastOnce,
            retained: false,
        }
    );
}

#[test]
fn lock_takes_one_call_and_one_publish() {
    let mut session = running();
    assert_eq!(session.step(message("uhppote/command", b"LOCK")), None);
    assert_eq!(session.stage(), Stage::Actuating(Command::Lock));
    assert_eq!(session.phase(), Phase::Running);
    assert_eq!(
        session.action(),
        Action::SetDoor(DoorRequest { door: 2, mode: DoorMode::Controlled, delay_secs: 5 })
    );
    let notice = session.step(Event::Completed).unwrap();
    assert_eq!(notice, Notice::Dispatched(CommandOutcome::Locked));
    assert_eq!(notice.kind(), None);
    assert_eq!(session.stage(), Stage::Reporting(Command::Lock));
    assert_eq!(session.action(), state_publish("LOCKED"));
    assert_eq!(session.step(Event::Completed), None);
    assert_eq!(session.stage(), Stage::Running);
    assert_eq!(session.action(), Action::Poll);
}

#[test]
fn unlock_takes_one_call_and_one_publish() {
    let mut session = running();
    assert_eq!(session.step(message("uhppote/command", b"UNLOCK")), None);
    assert_eq!(
        session.action(),
        Action::SetDoor(DoorRequest { door: 2, mode: DoorMode::NormallyOpen, delay_secs: 5 })
    );
    assert_eq!(
        session.step(Event::Completed),
        Some(Notice::Dispatched(CommandOutcome::Unlocked))
    );
    assert_eq!(session.action(), state_publish("UNLOCKED"));
    assert_eq!(session.step(Event::Completed), None);
    assert_eq!(session.action(), Action::Poll);
}

#[test]
fn repeated_lock_messages_are_each_carried_out() {
    let mut session = running();
    let mut door_calls = 0;
    let mut publishes = 0;
    for _ in 0..5 {
        session.step(message("uhppote/command", b"LOCK"));
        loop {
            match session.action() {
                Action::SetDoor(request) => {
                    assert_eq!(request.mode, DoorMode::Controlled);
                    door_calls += 1;
                }
                Action::Publish(publication) => {
                    assert_eq!(publication, Publication {
                        topic: "uhppote/state".to_string(),
                        payload: "LOCKED".to_string(),
                        qos: QoS::AtLeastOnce,
                        retained: false,
                    });
                    publishes += 1;
                }
                Action::Poll => break,
                other => panic!("unexpected {:?}", other),
            }
            session.step(Event::Completed);
        }
    }
    assert_eq!(door_calls, 5);
    assert_eq!(publishes, 5);
}

#[test]
fn a_failing_controller_is_reported_and_nothing_is_published() {
    let mut session = running();
    session.step(message("uhppote/command", b"UNLOCK"));
    let notice = session.step(failed("no answer")).unwrap();
    assert_eq!(
        notice,
        Notice::Dispatched(CommandOutcome::Error(CommandError::DeviceFailure(
            "no answer".to_string()
        )))
    );
    assert_eq!(notice.kind(), Some(ErrorKind::Device));
    assert_eq!(session.stage(), Stage::Running);
    assert_eq!(session.action(), Action::Poll);
}

#[test]
fn unknown_commands_are_ignored() {
    let mut session = running();
    for payload in [&b"lock"[..], b"Unlock", b"LOCK ", b"", b"TOGGLE"] {
        let notice = session.step(message("uhppote/command", payload)).unwrap();
        assert_eq!(notice, Notice::Dispatched(CommandOutcome::Ignored));
        assert_eq!(notice.kind(), Some(ErrorKind::Translation));
        assert_eq!(session.stage(), Stage::Running);
        assert_eq!(session.action(), Action::Poll);
    }
}

#[test]
fn malformed_payloads_are_reported() {
    let mut session = running();
    let notice = session.step(message("uhppote/command", &[0xff, 0xfe])).unwrap();
    assert_eq!(notice, Notice::Dispatched(CommandOutcome::Error(CommandError::MalformedPayload)));
    assert_eq!(notice.kind(), Some(ErrorKind::Translation));
    assert_eq!(session.action(), Action::Poll);
}

#[test]
fn messages_on_other_topics_are_passed_over() {
    let mut session = running();
    for topic in ["uhppote/state", "uhppote/config", "uhppote", "uhppote/command/", "other/command", ""] {
        assert_eq!(session.step(message(topic, b"LOCK")), None);
        assert_eq!(session.stage(), Stage::Running);
        assert_eq!(session.action(), Action::Poll);
    }
}

#[test]
fn other_events_keep_the_session_polling() {
    let mut session = running();
    assert_eq!(session.step(Event::Completed), None);
    assert_eq!(session.stage(), Stage::Running);
    assert_eq!(session.action(), Action::Poll);
}

#[test]
fn a_transport_error_is_reported_and_polling_goes_on() {
    let mut session = running();
    let notice = session.step(failed("connection reset")).unwrap();
    assert_eq!(notice, Notice::TransportError("connection reset".to_string()));
    assert_eq!(notice.kind(), Some(ErrorKind::Transport));
    assert_eq!(session.stage(), Stage::Interrupted);
    assert_eq!(session.phase(), Phase::Disconnected);
    assert_eq!(session.action(), Action::Poll);
    assert_eq!(
        session.step(failed("refused")),
        Some(Notice::TransportError("refused".to_string()))
    );
    assert_eq!(session.stage(), Stage::Interrupted);
    assert_eq!(session.step(Event::Completed), None);
    assert_eq!(session.stage(), Stage::Running);
    assert_eq!(session.phase(), Phase::Running);
    session.step(failed("again"));
    assert_eq!(session.step(message("uhppote/command", b"LOCK")), None);
    assert_eq!(session.stage(), Stage::Actuating(Command::Lock));
}

#[test]
fn a_failure_during_startup_halts_the_session() {
    let operations = [Operation::Connect, Operation::Subscribe, Operation::Announce];
    for (completed, operation) in operations.into_iter().enumerate() {
        let mut session = session();
        for _ in 0..completed {
            session.step(Event::Completed);
        }
        assert_eq!(session.step(failed("broken pipe")), None);
        let failure = TransportFailure { operation, cause: "broken pipe".to_string() };
        assert_eq!(failure.kind(), ErrorKind::Transport);
        assert_eq!(session.stage(), Stage::Halted(failure.clone()));
        assert_eq!(session.phase(), Phase::Disconnected);
        assert_eq!(session.action(), Action::Halt(failure.clone()));
        for event in [Event::Completed, failed("x"), message("uhppote/command", b"LOCK")] {
            assert_eq!(session.step(event), None);
            assert_eq!(session.action(), Action::Halt(failure.clone()));
        }
    }
}

#[test]
fn a_state_that_cannot_be_published_is_reported_by_default() {
    let mut session = running();
    session.step(message("uhppote/command", b"LOCK"));
    session.step(Event::Completed);
    let notice = session.step(failed("queue full")).unwrap();
    assert_eq!(notice, Notice::StateNotPublished("queue full".to_string()));
    assert_eq!(notice.kind(), Some(ErrorKind::Transport));
    assert_eq!(session.stage(), Stage::Running);
    assert_eq!(session.action(), Action::Poll);
}

#[test]
fn a_state_that_cannot_be_published_halts_where_asked_to() {
    let mut session = running().halting_on_report_failure();
    assert_eq!(session.stage(), Stage::Running);
    session.step(message("uhppote/command", b"LOCK"));
    session.step(Event::Completed);
    assert_eq!(session.step(failed("queue full")), None);
    assert_eq!(
        session.action(),
        Action::Halt(TransportFailure {
            operation: Operation::ReportState,
            cause: "queue full".to_string(),
        })
    );
}

#[test]
fn events_that_answer_nothing_change_nothing() {
    let mut session = session();
    for completed in 0..3 {
        let before = session.action();
        assert_eq!(session.step(message("uhppote/command", b"LOCK")), None);
        assert_eq!(session.action(), before, "after {} steps", completed);
        session.step(Event::Completed);
    }
    session.step(message("uhppote/command", b"LOCK"));
    let calling = session.action();
    assert_eq!(session.step(message("uhppote/command", b"UNLOCK")), None);
    assert_eq!(session.action(), calling);
    session.step(Event::Completed);
    let reporting = session.action();
    assert_eq!(session.step(message("uhppote/command", b"UNLOCK")), None);
    assert_eq!(session.action(), reporting);
}

#[test]
fn a_session_names_no_topic_but_its_own() {
    let mut session = session();
    let events = [
        Event::Completed,
        Event::Completed,
        Event::Completed,
        message("uhppote/command", b"LOCK"),
        Event::Completed,
        Event::Completed,
        message("elsewhere", b"UNLOCK"),
        message("uhppote/command", b"UNLOCK"),
        Event::Completed,
        failed("x"),
        failed("y"),
    ];
    for event in events {
        match session.action() {
            Action::Subscribe { topic, .. } => assert_eq!(topic, "uhppote/command"),
            Action::Publish(publication) => {
                assert!(publication.topic == "uhppote/config" || publication.topic == "uhppote/state");
                assert_eq!(publication.retained, publication.topic == "uhppote/config");
            }
            _ => {}
        }
        session.step(event);
    }
}

fn supervisor(status: u16, port: &str) -> CredentialSource {
    CredentialSource::SupervisorDiscovered(SupervisorReply {
        status,
        descriptor: Some(BrokerDescriptor {
            host: "core-mosquitto".to_string(),
            port: port.to_string(),
            username: "addons".to_string(),
            password: "pw".to_string(),
        }),
    })
}

#[test]
fn start_connects_with_what_the_supervisor_handed_out() {
    let session = start(&config("uhppote"), supervisor(200, "1883")).unwrap();
    assert_eq!(
        session.action(),
        Action::Connect(ConnectOptions {
            client_id: "bridge-1".to_string(),
            host: "core-mosquitto".to_string(),
            port: 1883,
            keep_alive_secs: 5,
            username: "addons".to_string(),
            password: "pw".to_string(),
        })
    );
}

#[test]
fn start_connects_with_the_configured_settings() {
    let mut config = config("uhppote");
    config.broker_host = Some("10.0.0.2".to_string());
    config.broker_port = Some(8883);
    config.broker_username = Some("me".to_string());
    config.broker_password = Some("pw".to_string());
    let session = start(&config, CredentialSource::Static).unwrap();
    assert_eq!(
        session.action(),
        Action::Connect(ConnectOptions {
            client_id: "bridge-1".to_string(),
            host: "10.0.0.2".to_string(),
            port: 8883,
            keep_alive_secs: 5,
            username: "me".to_string(),
            password: "pw".to_string(),
        })
    );
}

fn start_error(config: &BridgeConfig, source: CredentialSource) -> StartupError {
    match start(config, source) {
        Err(error) => error,
        Ok(_) => panic!("the bridge started"),
    }
}

#[test]
fn start_fails_with_the_reason() {
    let error = start_error(&config("uhppote"), CredentialSource::Static);
    assert_eq!(
        error,
        StartupError::Credentials(ResolveError::MissingCredential(CredentialField::Host))
    );
    assert_eq!(error.kind(), ErrorKind::Configuration);

    let error = start_error(&config("uhppote"), supervisor(401, "1883"));
    assert_eq!(error, StartupError::Credentials(ResolveError::SupervisorStatus(401)));
    assert_eq!(error.kind(), ErrorKind::Resolution);

    let error = start_error(&config("uhppote"), supervisor(200, "port"));
    assert_eq!(error, StartupError::Credentials(ResolveError::InvalidPort));
    assert_eq!(error.kind(), ErrorKind::Resolution);

    let error = start_error(&config(""), supervisor(200, "1883"));
    assert_eq!(error, StartupError::Configuration(ConfigError::EmptyBaseTopic));
    assert_eq!(error.kind(), ErrorKind::Configuration);

    let error = start_error(&config(""), CredentialSource::Static);
    assert_eq!(error, StartupError::Configuration(ConfigError::EmptyBaseTopic));
}
