use uhppote_mqtt::cli::file_exists;
use uhppote_mqtt::discovery::DiscoveryPayload;
use uhppote_mqtt::topics::{join, TopicSet};

fn topics_of(base: &str) -> TopicSet {
    uhppote_mqtt::topics::derive(base)
}

#[test]
fn derive_appends_the_three_suffixes() {
    let topics = topics_of("uhppote");
    assert_eq!(topics.config, "uhppote/config");
    assert_eq!(topics.state, "uhppote/state");
    assert_eq!(topics.command, "uhppote/command");
}

#[test]
fn derive_keeps_slashes_and_unicode_of_the_base() {
    let topics = topics_of("home/türen/1");
    assert_eq!(topics.config, "home/türen/1/config");
    assert_eq!(topics.state, "home/türen/1/state");
    assert_eq!(topics.command, "home/türen/1/command");
}

#[test]
fn derive_gives_three_different_topics() {
    for base in ["a", "uhppote", "x/y", "/", "config"] {
        let topics = topics_of(base);
        assert_ne!(topics.config, topics.state);
        assert_ne!(topics.config, topics.command);
        assert_ne!(topics.state, topics.command);
        for topic in [&topics.config, &topics.state, &topics.command] {
            assert!(topic.starts_with(&format!("{}/", base)));
        }
    }
}

#[test]
fn duplicate_is_an_equal_topic_set() {
    let topics = topics_of("uhppote");
    let copy = topics.duplicate();
    assert_eq!(copy.config, topics.config);
    assert_eq!(copy.state, topics.state);
    assert_eq!(copy.command, topics.command);
}

#[test]
fn join_concatenates() {
    assert_eq!(join("a", "/b"), "a/b");
    assert_eq!(join("", ""), "");
    assert_eq!(join("", "x"), "x");
}

#[test]
fn discovery_record_takes_command_and_state_topic() {
    let record = DiscoveryPayload::new(&topics_of("uhppote"), "Front door");
    assert_eq!(record.command_topic, "uhppote/command");
    assert_eq!(record.state_topic, "uhppote/state");
    assert_eq!(record.name, "Front door");
}

#[test]
fn discovery_record_is_written_as_one_flat_object() {
    let record = DiscoveryPayload::new(&topics_of("uhppote"), "Front door");
    assert_eq!(
        record.serialize(),
        "{\"command_topic\": \"uhppote/command\", \"state_topic\": \"uhppote/state\", \"name\": \"Front door\" }"
    );
}

#[test]
fn discovery_text_parses_as_json_with_three_members() {
    let record = DiscoveryPayload::new(&topics_of("uhppote"), "Front door");
    let value: serde_json::Value = serde_json::from_str(&record.serialize()).unwrap();
    let object = value.as_object().unwrap();
    assert_eq!(object.len(), 3);
    assert_eq!(object["command_topic"].as_str(), Some("uhppote/command"));
    assert_eq!(object["state_topic"].as_str(), Some("uhppote/state"));
    assert_eq!(object["name"].as_str(), Some("Front door"));
}

#[test]
fn discovery_text_of_empty_fields() {
    let record = DiscoveryPayload {
        command_topic: String::new(),
        state_topic: String::new(),
        name: String::new(),
    };
    assert_eq!(
        record.serialize(),
        "{\"command_topic\": \"\", \"state_topic\": \"\", \"name\": \"\" }"
    );
}

#[test]
fn file_exists_accepts_a_file_that_is_there() {
    assert_eq!(file_exists("config.json", true), Ok("config.json".to_string()));
}

#[test]
fn file_exists_complains_about_a_missing_file() {
    assert_eq!(
        file_exists("config.json", false),
        Err("File 'config.json ' does not exist".to_string())
    );
    assert_eq!(file_exists("", false), Err("File ' ' does not exist".to_string()));
}
