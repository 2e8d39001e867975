//! The settings of the bridges, and what follows from them alone: the
//! connection of each bridge, its descriptors and their discovery topics.

use crate::broker::{ClientOptions, ClientOptionsView, LastWill, Login, LoginView, Publication,
    PublicationView, QoS};
use crate::homeassistant::{Availability, Component, ComponentCommon, ComponentCommonView, Device,
    Select, SelectView, Switch, SwitchView};
use crate::homeassistant::{AvailabilityView, DeviceView};
use crate::text::{clone_optional, optional_text, texts};
use vstd::prelude::*;
use vstd::string::*;

verus! {

/// How many requests may wait between a client and its event loop.
pub const REQUEST_CAPACITY: usize = 10;

/// What the connection of one bridge takes from that bridge's settings.
pub trait MqttModuleConfig {
    spec fn module_id(&self) -> Seq<char>;

    spec fn will_topic(&self) -> Seq<char>;

    spec fn will_payload(&self) -> Seq<char>;

    fn client_id(&self) -> (id: &str)
        ensures
            id@ == self.module_id(),
    ;

    fn last_will_topic(&self) -> (topic: &str)
        ensures
            topic@ == self.will_topic(),
    ;

    fn last_will_payload(&self) -> (payload: String)
        ensures
            payload@ == self.will_payload(),
    ;
}

/// How to reach the broker.
pub struct MqttConfig {
    pub server_host: String,
    pub server_port: u16,
    pub keep_alive: u64,
    pub user: Option<String>,
    pub password: Option<String>,
    /// Carried by the settings document. The availability messages are
    /// retained whatever it says.
    pub retain_last_will: bool,
}

pub struct MqttConfigView {
    pub server_host: Seq<char>,
    pub server_port: u16,
    pub keep_alive: u64,
    pub user: Option<Seq<char>>,
    pub password: Option<Seq<char>>,
    pub retain_last_will: bool,
}

impl View for MqttConfig {
    type V = MqttConfigView;

    open spec fn view(&self) -> MqttConfigView {
        MqttConfigView {
            server_host: self.server_host@,
            server_port: self.server_port,
            keep_alive: self.keep_alive,
            user: optional_text(self.user),
            password: optional_text(self.password),
            retain_last_will: self.retain_last_will,
        }
    }
}

impl Clone for MqttConfig {
    fn clone(&self) -> (copy: Self)
        ensures
            copy@ == self@,
    {
        MqttConfig {
            server_host: self.server_host.clone(),
            server_port: self.server_port,
            keep_alive: self.keep_alive,
            user: clone_optional(&self.user),
            password: clone_optional(&self.password),
            retain_last_will: self.retain_last_will,
        }
    }
}

/// How the hub discovers the entities.
pub struct HomeAssistantConfig {
    pub autodiscover: bool,
    /// The first segment of every discovery topic.
    pub autodiscover_prefix: String,
    pub device: Device,
}

pub struct HomeAssistantConfigView {
    pub autodiscover: bool,
    pub autodiscover_prefix: Seq<char>,
    pub device: DeviceView,
}

impl View for HomeAssistantConfig {
    type V = HomeAssistantConfigView;

    open spec fn view(&self) -> HomeAssistantConfigView {
        HomeAssistantConfigView {
            autodiscover: self.autodiscover,
            autodiscover_prefix: self.autodiscover_prefix@,
            device: self.device@,
        }
    }
}

impl Clone for HomeAssistantConfig {
    fn clone(&self) -> (copy: Self)
        ensures
            copy@ == self@,
    {
        HomeAssistantConfig {
            autodiscover: self.autodiscover,
            autodiscover_prefix: self.autodiscover_prefix.clone(),
            device: self.device.clone(),
        }
    }
}

/// A command line that the hub may run.
pub struct ScriptConfig {
    command: String,
}

impl ScriptConfig {
    pub closed spec fn command_text(&self) -> Seq<char> {
        self.command@
    }

    pub fn new(command: String) -> (script: Self)
        ensures
            script.command_text() == command@,
    {
        ScriptConfig { command }
    }

    pub fn command(&self) -> (command: &str)
        ensures
            command@ == self.command_text(),
    {
        self.command.as_str()
    }
}

/// The settings of the audio bridge.
pub struct PulseAudioConfig {
    pub mqtt_name: String,
    pub state_topic: String,
    pub command_topic: String,
    pub availability: Availability,
}

pub struct PulseAudioConfigView {
    pub mqtt_name: Seq<char>,
    pub state_topic: Seq<char>,
    pub command_topic: Seq<char>,
    pub availability: AvailabilityView,
}

impl View for PulseAudioConfig {
    type V = PulseAudioConfigView;

    open spec fn view(&self) -> PulseAudioConfigView {
        PulseAudioConfigView {
            mqtt_name: self.mqtt_name@,
            state_topic: self.state_topic@,
            command_topic: self.command_topic@,
            availability: self.availability@,
        }
    }
}

impl Clone for PulseAudioConfig {
    fn clone(&self) -> (copy: Self)
        ensures
            copy@ == self@,
    {
        PulseAudioConfig {
            mqtt_name: self.mqtt_name.clone(),
            state_topic: self.state_topic.clone(),
            command_topic: self.command_topic.clone(),
            availability: self.availability.clone(),
        }
    }
}

impl MqttModuleConfig for PulseAudioConfig {
    open spec fn module_id(&self) -> Seq<char> {
        self.mqtt_name@
    }

    open spec fn will_topic(&self) -> Seq<char> {
        self.availability.topic@
    }

    open spec fn will_payload(&self) -> Seq<char> {
        self.availability.payload_not_available@
    }

    fn client_id(&self) -> (id: &str) {
        self.mqtt_name.as_str()
    }

    fn last_will_topic(&self) -> (topic: &str) {
        self.availability.topic.as_str()
    }

    fn last_will_payload(&self) -> (payload: String) {
        self.availability.payload_not_available.clone()
    }
}

/// The settings of the window-manager bridge.
pub struct SwayConfig {
    /// Stands before the name of every entity of this bridge.
    pub name_prefix: String,
    pub mqtt_name: String,
    pub state_topic: String,
    pub command_topic: String,
    pub availability: Availability,
}

pub struct SwayConfigView {
    pub name_prefix: Seq<char>,
    pub mqtt_name: Seq<char>,
    pub state_topic: Seq<char>,
    pub command_topic: Seq<char>,
    pub availability: AvailabilityView,
}

impl View for SwayConfig {
    type V = SwayConfigView;

    open spec fn view(&self) -> SwayConfigView {
        SwayConfigView {
            name_prefix: self.name_prefix@,
            mqtt_name: self.mqtt_name@,
            state_topic: self.state_topic@,
            command_topic: self.command_topic@,
            availability: self.availability@,
        }
    }
}

impl Clone for SwayConfig {
    fn clone(&self) -> (copy: Self)
        ensures
            copy@ == self@,
    {
        SwayConfig {
            name_prefix: self.name_prefix.clone(),
            mqtt_name: self.mqtt_name.clone(),
            state_topic: self.state_topic.clone(),
            command_topic: self.command_topic.clone(),
            availability: self.availability.clone(),
        }
    }
}

impl MqttModuleConfig for SwayConfig {
    open spec fn module_id(&self) -> Seq<char> {
        self.mqtt_name@
    }

    open spec fn will_topic(&self) -> Seq<char> {
        self.availability.topic@
    }

    open spec fn will_payload(&self) -> Seq<char> {
        self.availability.payload_not_available@
    }

    fn client_id(&self) -> (id: &str) {
        self.mqtt_name.as_str()
    }

    fn last_will_topic(&self) -> (topic: &str) {
        self.availability.topic.as_str()
    }

    fn last_will_payload(&self) -> (payload: String) {
        self.availability.payload_not_available.clone()
    }
}

/// All settings.
pub struct Config {
    pub app_name: String,
    pub mqtt: MqttConfig,
    pub homeassistant: HomeAssistantConfig,
    pub pulseaudio: PulseAudioConfig,
    pub sway: SwayConfig,
    /// The state text of a switch that is on.
    pub switch_on_value: String,
    /// The state text of a switch that is off.
    pub switch_off_value: String,
}

pub struct ConfigView {
    pub app_name: Seq<char>,
    pub mqtt: MqttConfigView,
    pub homeassistant: HomeAssistantConfigView,
    pub pulseaudio: PulseAudioConfigView,
    pub sway: SwayConfigView,
    pub switch_on_value: Seq<char>,
    pub switch_off_value: Seq<char>,
}

impl View for Config {
    type V = ConfigView;

    open spec fn view(&self) -> ConfigView {
        ConfigView {
            app_name: self.app_name@,
            mqtt: self.mqtt@,
            homeassistant: self.homeassistant@,
            pulseaudio: self.pulseaudio@,
            sway: self.sway@,
            switch_on_value: self.switch_on_value@,
            switch_off_value: self.switch_off_value@,
        }
    }
}

impl Clone for Config {
    fn clone(&self) -> (copy: Self)
        ensures
            copy@ == self@,
    {
        Config {
            app_name: self.app_name.clone(),
            mqtt: self.mqtt.clone(),
            homeassistant: self.homeassistant.clone(),
            pulseaudio: self.pulseaudio.clone(),
            sway: self.sway.clone(),
            switch_on_value: self.switch_on_value.clone(),
            switch_off_value: self.switch_off_value.clone(),
        }
    }
}

/// The login that a connection uses: one is sent only where both a user
/// and a password are set.
pub open spec fn login_of(user: Option<Seq<char>>, password: Option<Seq<char>>) -> Option<
    LoginView,
> {
    match (user, password) {
        (Some(user), Some(password)) => Some(LoginView { username: user, password }),
        _ => None,
    }
}

/// The discovery topic of the entity `id` of kind `kind` under `prefix`.
pub open spec fn discovery_topic(prefix: Seq<char>, kind: Seq<char>, id: Seq<char>) -> Seq<char> {
    prefix + "/"@ + kind + "/"@ + id + "/config"@
}

impl Config {
    /// The connection settings of the bridge `mqtt_config`. The fallback
    /// message is the bridge's own, delivered at least once and retained,
    /// so that the hub still reads it after its own restart.
    pub fn get_client<M: MqttModuleConfig>(&self, mqtt_config: &M) -> (options: ClientOptions)
        ensures
            options@ == (ClientOptionsView {
                client_id: mqtt_config.module_id(),
                host: self@.mqtt.server_host,
                port: self@.mqtt.server_port,
                keep_alive: self@.mqtt.keep_alive,
                last_will: PublicationView {
                    topic: mqtt_config.will_topic(),
                    payload: mqtt_config.will_payload(),
                    qos: QoS::AtLeastOnce,
                    retain: true,
                },
                credentials: login_of(self@.mqtt.user, self@.mqtt.password),
                capacity: REQUEST_CAPACITY,
            }),
    {
        let last_will = LastWill {
            topic: mqtt_config.last_will_topic().to_owned(),
            payload: mqtt_config.last_will_payload(),
            qos: QoS::AtLeastOnce,
            retain: true,
        };
        let credentials = match (&self.mqtt.user, &self.mqtt.password) {
            (Some(user), Some(password)) => Some(
                Login { username: user.clone(), password: password.clone() },
            ),
            _ => None,
        };
        ClientOptions {
            client_id: mqtt_config.client_id().to_owned(),
            host: self.mqtt.server_host.clone(),
            port: self.mqtt.server_port,
            keep_alive: self.mqtt.keep_alive,
            last_will,
            credentials,
            capacity: REQUEST_CAPACITY,
        }
    }

    /// A switch descriptor of this bridge's device. The states are the
    /// configured ones, and the hub waits for the state to be reported.
    pub fn build_switch(
        &self,
        command_topic: String,
        state_topic: String,
        availability: Availability,
        name: String,
        unique_id: String,
        value_template: String,
        json_attributes_template: String,
        payload_on: String,
        payload_off: String,
        json_attributes_topic: String,
    ) -> (switch: Switch)
        ensures
            switch@ == (SwitchView {
                command_topic: command_topic@,
                state_topic: state_topic@,
                common: ComponentCommonView {
                    name: name@,
                    unique_id: unique_id@,
                    device: self@.homeassistant.device,
                    availability: availability@,
                },
                value_template: value_template@,
                json_attributes_topic: json_attributes_topic@,
                json_attributes_template: json_attributes_template@,
                payload_on: payload_on@,
                payload_off: payload_off@,
                state_on: self@.switch_on_value,
                state_off: self@.switch_off_value,
                optimistic: false,
            }),
    {
        let common = ComponentCommon {
            name,
            unique_id,
            device: self.homeassistant.device.clone(),
            availability,
        };
        Switch {
            command_topic,
            state_topic,
            common,
            value_template,
            json_attributes_topic,
            json_attributes_template,
            payload_on,
            payload_off,
            state_on: self.switch_on_value.clone(),
            state_off: self.switch_off_value.clone(),
            optimistic: false,
        }
    }

    /// A selector descriptor of this bridge's device. Its attributes are
    /// read from the state topic.
    pub fn build_select(
        &self,
        options: Vec<String>,
        command_topic: String,
        state_topic: String,
        availability: Availability,
        name: String,
        unique_id: String,
        value_template: String,
        json_attributes_template: String,
    ) -> (select: Select)
        ensures
            select@ == (SelectView {
                command_topic: command_topic@,
                state_topic: state_topic@,
                common: ComponentCommonView {
                    name: name@,
                    unique_id: unique_id@,
                    device: self@.homeassistant.device,
                    availability: availability@,
                },
                options: texts(options@),
                value_template: value_template@,
                json_attributes_topic: state_topic@,
                json_attributes_template: json_attributes_template@,
            }),
    {
        let common = ComponentCommon {
            name,
            unique_id,
            device: self.homeassistant.device.clone(),
            availability,
        };
        Select {
            command_topic,
            state_topic: state_topic.clone(),
            common,
            options,
            value_template,
            json_attributes_template,
            json_attributes_topic: state_topic,
        }
    }

    /// The topic on which `component` is announced.
    pub fn get_autodiscover_topic<C: Component>(&self, component: &C) -> (topic: String)
        ensures
            topic@ == discovery_topic(
                self@.homeassistant.autodiscover_prefix,
                component.kind(),
                component.id(),
            ),
    {
        let mut topic = self.homeassistant.autodiscover_prefix.clone();
        topic.append("/");
        topic.append(component.component_str());
        topic.append("/");
        topic.append(component.object_id());
        topic.append("/config");
        topic
    }

    /// The announcement of `component`: its document on its discovery
    /// topic, retained, so that a hub that starts later still finds it.
    pub fn publish_autodiscover<C: Component>(&self, component: &C) -> (message: Publication)
        ensures
            message@ == (PublicationView {
                topic: discovery_topic(
                    self@.homeassistant.autodiscover_prefix,
                    component.kind(),
                    component.id(),
                ),
                payload: component.json(),
                qos: QoS::AtLeastOnce,
                retain: true,
            }),
    {
        Publication {
            topic: self.get_autodiscover_topic(component),
            payload: component.to_json(),
            qos: QoS::AtLeastOnce,
            retain: true,
        }
    }
}

} // verus!
