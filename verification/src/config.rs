//! The configuration of a bridge, as it is loaded once at startup.

use vstd::prelude::*;

verus! {

/// Everything a bridge is configured with. The four broker settings may be
/// left out where a supervisor hands them out instead.
#[derive(Clone, PartialEq, Eq, Debug)]
pub struct BridgeConfig {
    /// Serial number of the door controller.
    pub device_id: u32,
    /// Network address of the controller; without one it is reached by
    /// broadcast.
    pub device_address: Option<String>,
    /// Name under which the door is announced.
    pub name: String,
    /// Number of the door on the controller.
    pub door: u8,
    /// Client identifier presented to the broker.
    pub client_id: String,
    /// Host of the broker.
    pub broker_host: Option<String>,
    /// Port of the broker.
    pub broker_port: Option<u16>,
    /// User name at the broker.
    pub broker_username: Option<String>,
    /// Password at the broker.
    pub broker_password: Option<String>,
    /// Topic under which the bridge's three topics live. A bridge does not
    /// start with an empty one.
    pub base_topic: String,
}

/// Mathematical model of a [`BridgeConfig`].
pub struct BridgeConfigView {
    pub device_id: u32,
    pub device_address: Option<Seq<char>>,
    pub name: Seq<char>,
    pub door: u8,
    pub client_id: Seq<char>,
    pub broker_host: Option<Seq<char>>,
    pub broker_port: Option<u16>,
    pub broker_username: Option<Seq<char>>,
    pub broker_password: Option<Seq<char>>,
    pub base_topic: Seq<char>,
}

/// The text of an optional string.
pub open spec fn text_of(value: Option<String>) -> Option<Seq<char>> {
    match value {
        Some(text) => Some(text@),
        None => None,
    }
}

impl View for BridgeConfig {
    type V = BridgeConfigView;

    open spec fn view(&self) -> BridgeConfigView {
        BridgeConfigView {
            device_id: self.device_id,
            device_address: text_of(self.device_address),
            name: self.name@,
            door: self.door,
            client_id: self.client_id@,
            broker_host: text_of(self.broker_host),
            broker_port: self.broker_port,
            broker_username: text_of(self.broker_username),
            broker_password: text_of(self.broker_password),
            base_topic: self.base_topic@,
        }
    }
}

impl BridgeConfigView {
    /// A bridge can be started from this configuration.
    pub open spec fn wf(self) -> bool {
        self.base_topic.len() > 0
    }
}

impl BridgeConfig {
    /// Whether a bridge can be started from this configuration: whether its
    /// base topic is not empty.
    pub fn is_valid(&self) -> (valid: bool)
        ensures
            valid == self@.wf(),
    {
        !self.base_topic.as_str().is_empty()
    }
}

} // verus!
