//! The record with which a bridge announces its door to the home-automation
//! side.

use vstd::prelude::*;
use vstd::string::*;
use crate::topics::{TopicSet, TopicSetView};

verus! {

/// What is announced: where commands go, where the state appears, and the
/// name of the door.
#[derive(Clone, PartialEq, Eq, Debug)]
pub struct DiscoveryPayload {
    pub command_topic: String,
    pub state_topic: String,
    pub name: String,
}

/// Mathematical model of a [`DiscoveryPayload`].
pub struct DiscoveryPayloadView {
    pub command_topic: Seq<char>,
    pub state_topic: Seq<char>,
    pub name: Seq<char>,
}

impl View for DiscoveryPayload {
    type V = DiscoveryPayloadView;

    open spec fn view(&self) -> DiscoveryPayloadView {
        DiscoveryPayloadView {
            command_topic: self.command_topic@,
            state_topic: self.state_topic@,
            name: self.name@,
        }
    }
}

/// The record for a door called `name` on the topics `topics`.
pub open spec fn discovery_spec(topics: TopicSetView, name: Seq<char>) -> DiscoveryPayloadView {
    DiscoveryPayloadView { command_topic: topics.command, state_topic: topics.state, name }
}

/// The text of a record: one flat object of three members, in the order
/// command topic, state topic, name. The values are written as they are,
/// between double quotes.
pub open spec fn discovery_text(record: DiscoveryPayloadView) -> Seq<char> {
    "{\"command_topic\": \""@ + record.command_topic + "\", \"state_topic\": \""@
        + record.state_topic + "\", \"name\": \""@ + record.name + "\" }"@
}

impl DiscoveryPayload {
    /// The record for a door called `name` on the topics `topics`.
    pub fn new(topics: &TopicSet, name: &str) -> (record: DiscoveryPayload)
        ensures
            record@ == discovery_spec(topics@, name@),
    {
        DiscoveryPayload {
            command_topic: topics.command.clone(),
            state_topic: topics.state.clone(),
            name: String::from_str(name),
        }
    }

    /// Writes the record out.
    pub fn serialize(&self) -> (text: String)
        ensures
            text@ == discovery_text(self@),
    {
        let mut text = String::from_str("{\"command_topic\": \"");
        text.append(self.command_topic.as_str());
        text.append("\", \"state_topic\": \"");
        text.append(self.state_topic.as_str());
        text.append("\", \"name\": \"");
        text.append(self.name.as_str());
        text.append("\" }");
        text
    }
}

} // verus!
