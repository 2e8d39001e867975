use desktop_bridge::availability::AvailabilityManager;
use desktop_bridge::broker::QoS;
use desktop_bridge::config::{
    Config, HomeAssistantConfig, MqttConfig, MqttModuleConfig, PulseAudioConfig, ScriptConfig,
    SwayConfig, REQUEST_CAPACITY,
};
use desktop_bridge::homeassistant::{Availability, Component, ComponentCommon, Device, Select, Switch};
use desktop_bridge::pulseaudio::{is_command_topic, state_message, triggers_snapshot, MissingPart, PulseState};
use desktop_bridge::pulsectl::types::sinks_to_json;
use desktop_bridge::pulsectl::{
    ChannelVolumes, ControlError, EventTarget, EventType, PulseEvent, SinkInfo, Volume,
};

fn record(topic: &str) -> Availability {
    Availability {
        payload_available: "online".to_string(),
        payload_not_available: "offline".to_string(),
        topic: topic.to_string(),
    }
}

fn base() -> Config {
    Config {
        app_name: "desktop".to_string(),
        mqtt: MqttConfig {
            server_host: "broker.lan".to_string(),
            server_port: 8883,
            keep_alive: 30,
            user: None,
            password: None,
            retain_last_will: false,
        },
        homeassistant: HomeAssistantConfig {
            autodiscover: true,
            autodiscover_prefix: "ha".to_string(),
            device: Device::new("desk".to_string(), vec!["id-1".to_string(), "id-2".to_string()]),
        },
        pulseaudio: PulseAudioConfig {
            mqtt_name: "pulse-client".to_string(),
            state_topic: "pulse/state".to_string(),
            command_topic: "pulse/cmd".to_string(),
            availability: record("pulse/available"),
        },
        sway: SwayConfig {
            name_prefix: "sway_".to_string(),
            mqtt_name: "sway-client".to_string(),
            state_topic: "sway/state".to_string(),
            command_topic: "sway/cmd".to_string(),
            availability: record("sway/available"),
        },
        switch_on_value: "ON".to_string(),
        switch_off_value: "OFF".to_string(),
    }
}

fn a_switch(config: &Config) -> Switch {
    config.build_switch(
        "cmd".to_string(),
        "state".to_string(),
        record("avail"),
        "Lamp".to_string(),
        "lamp_1".to_string(),
        "{{ value }}".to_string(),
        "{{ attrs }}".to_string(),
        "on!".to_string(),
        "off!".to_string(),
        "attrs/topic".to_string(),
    )
}

fn a_select(config: &Config) -> Select {
    config.build_select(
        vec!["1".to_string(), "2:web".to_string()],
        "cmd".to_string(),
        "state".to_string(),
        record("avail"),
        "Workspace".to_string(),
        "workspace_1".to_string(),
        "{{ value }}".to_string(),
        "{{ attrs }}".to_string(),
    )
}

fn a_sink(name: &str) -> SinkInfo {
    SinkInfo {
        index: 1,
        state: "IDLE".to_string(),
        name: name.to_string(),
        mute: true,
        channel_map: "mono".to_string(),
        volume: ChannelVolumes::new(),
    }
}

#[test]
fn module_settings_of_the_sway_bridge() {
    let config = base();
    assert_eq!(config.sway.client_id(), "sway-client");
    assert_eq!(config.sway.last_will_topic(), "sway/available");
    assert_eq!(config.sway.last_will_payload(), "offline");
}

#[test]
fn module_settings_of_the_audio_bridge() {
    let config = base();
    assert_eq!(config.pulseaudio.client_id(), "pulse-client");
    assert_eq!(config.pulseaudio.last_will_topic(), "pulse/available");
    assert_eq!(config.pulseaudio.last_will_payload(), "offline");
}

#[test]
fn get_client_takes_the_connection_from_the_settings() {
    let config = base();
    let options = config.get_client(&config.sway);
    assert_eq!(options.client_id, "sway-client");
    assert_eq!(options.host, "broker.lan");
    assert_eq!(options.port, 8883);
    assert_eq!(options.keep_alive, 30);
    assert_eq!(options.capacity, 10);
    assert_eq!(REQUEST_CAPACITY, 10);
    assert!(options.credentials.is_none());
}

#[test]
fn get_client_registers_the_fallback_retained() {
    let mut config = base();
    config.mqtt.retain_last_will = false;
    let options = config.get_client(&config.pulseaudio);
    assert_eq!(options.last_will.topic, "pulse/available");
    assert_eq!(options.last_will.payload, "offline");
    assert_eq!(options.last_will.qos, QoS::AtLeastOnce);
    assert!(options.last_will.retain);
}

#[test]
fn get_client_logs_in_only_with_user_and_password() {
    let mut config = base();
    config.mqtt.user = Some("me".to_string());
    assert!(config.get_client(&config.sway).credentials.is_none());
    config.mqtt.user = None;
    config.mqtt.password = Some("secret".to_string());
    assert!(config.get_client(&config.sway).credentials.is_none());
    config.mqtt.user = Some("me".to_string());
    let login = config.get_client(&config.sway).credentials.unwrap();
    assert_eq!(login.username, "me");
    assert_eq!(login.password, "secret");
}

#[test]
fn build_switch_fills_every_field() {
    let config = base();
    let switch = a_switch(&config);
    assert_eq!(switch.command_topic, "cmd");
    assert_eq!(switch.state_topic, "state");
    assert_eq!(switch.common.name, "Lamp");
    assert_eq!(switch.common.unique_id, "lamp_1");
    assert_eq!(switch.common.device.name(), "desk");
    assert_eq!(switch.common.device.identifiers(), &vec!["id-1".to_string(), "id-2".to_string()]);
    assert_eq!(switch.common.availability.topic, "avail");
    assert_eq!(switch.value_template, "{{ value }}");
    assert_eq!(switch.json_attributes_topic, "attrs/topic");
    assert_eq!(switch.json_attributes_template, "{{ attrs }}");
    assert_eq!(switch.payload_on, "on!");
    assert_eq!(switch.payload_off, "off!");
    assert_eq!(switch.state_on, "ON");
    assert_eq!(switch.state_off, "OFF");
    assert!(!switch.optimistic);
}

#[test]
fn build_select_reads_attributes_from_the_state_topic() {
    let config = base();
    let select = a_select(&config);
    assert_eq!(select.command_topic, "cmd");
    assert_eq!(select.state_topic, "state");
    assert_eq!(select.json_attributes_topic, "state");
    assert_eq!(select.options, vec!["1".to_string(), "2:web".to_string()]);
    assert_eq!(select.common.name, "Workspace");
    assert_eq!(select.common.unique_id, "workspace_1");
    assert_eq!(select.common.device.name(), "desk");
    assert_eq!(select.value_template, "{{ value }}");
    assert_eq!(select.json_attributes_template, "{{ attrs }}");
}

#[test]
fn switch_document() {
    let config = base();
    assert_eq!(
        a_switch(&config).to_json(),
        "{\"command_topic\":\"cmd\",\"state_topic\":\"state\",\"name\":\"Lamp\",\
         \"unique_id\":\"lamp_1\",\"device\":{\"name\":\"desk\",\"identifiers\":[\"id-1\",\"id-2\"]},\
         \"availability\":{\"payload_available\":\"online\",\"payload_not_available\":\"offline\",\
         \"topic\":\"avail\"},\"value_template\":\"{{ value }}\",\
         \"json_attributes_topic\":\"attrs/topic\",\"json_attributes_template\":\"{{ attrs }}\",\
         \"payload_on\":\"on!\",\"payload_off\":\"off!\",\"state_on\":\"ON\",\"state_off\":\"OFF\",\
         \"optimistic\":false}"
    );
}

#[test]
fn switch_document_of_an_optimistic_switch() {
    let config = base();
    let mut switch = a_switch(&config);
    switch.optimistic = true;
    assert!(switch.to_json().ends_with(",\"optimistic\":true}"));
}

#[test]
fn select_document() {
    let config = base();
    assert_eq!(
        a_select(&config).to_json(),
        "{\"command_topic\":\"cmd\",\"state_topic\":\"state\",\"name\":\"Workspace\",\
         \"unique_id\":\"workspace_1\",\"device\":{\"name\":\"desk\",\"identifiers\":[\"id-1\",\"id-2\"]},\
         \"availability\":{\"payload_available\":\"online\",\"payload_not_available\":\"offline\",\
         \"topic\":\"avail\"},\"options\":[\"1\",\"2:web\"],\"value_template\":\"{{ value }}\",\
         \"json_attributes_topic\":\"state\",\"json_attributes_template\":\"{{ attrs }}\"}"
    );
}

#[test]
fn documents_escape_their_texts() {
    let config = base();
    let mut switch = a_switch(&config);
    switch.payload_on = "{\"type\":\"X\"}".to_string();
    let document: serde_json::Value = serde_json::from_str(&switch.to_json()).unwrap();
    assert_eq!(document["payload_on"], "{\"type\":\"X\"}");
    assert!(switch.to_json().contains("\"payload_on\":\"{\\\"type\\\":\\\"X\\\"}\""));
}

#[test]
fn parts_of_a_document() {
    assert_eq!(
        record("t").to_json(),
        "{\"payload_available\":\"online\",\"payload_not_available\":\"offline\",\"topic\":\"t\"}"
    );
    assert_eq!(
        Device::new("d".to_string(), Vec::new()).to_json(),
        "{\"name\":\"d\",\"identifiers\":[]}"
    );
    let common = ComponentCommon {
        name: "n".to_string(),
        unique_id: "u".to_string(),
        device: Device::new("d".to_string(), vec!["i".to_string()]),
        availability: record("t"),
    };
    assert_eq!(
        common.members_json(),
        ",\"name\":\"n\",\"unique_id\":\"u\",\"device\":{\"name\":\"d\",\"identifiers\":[\"i\"]},\
         \"availability\":{\"payload_available\":\"online\",\"payload_not_available\":\"offline\",\
         \"topic\":\"t\"}"
    );
}

#[test]
fn components_name_their_kind_and_identifier() {
    let config = base();
    let switch = a_switch(&config);
    let select = a_select(&config);
    assert_eq!(switch.component_str(), "switch");
    assert_eq!(switch.object_id(), "lamp_1");
    assert_eq!(select.component_str(), "select");
    assert_eq!(select.object_id(), "workspace_1");
}

#[test]
fn get_autodiscover_topic_of_each_kind() {
    let config = base();
    assert_eq!(config.get_autodiscover_topic(&a_switch(&config)), "ha/switch/lamp_1/config");
    assert_eq!(config.get_autodiscover_topic(&a_select(&config)), "ha/select/workspace_1/config");
}

#[test]
fn publish_autodiscover_is_retained() {
    let config = base();
    let switch = a_switch(&config);
    let message = config.publish_autodiscover(&switch);
    assert_eq!(message.topic, "ha/switch/lamp_1/config");
    assert_eq!(message.payload, switch.to_json());
    assert_eq!(message.qos, QoS::AtLeastOnce);
    assert!(message.retain);
}

#[test]
fn publish_autodiscover_twice_gives_the_same_bytes() {
    let config = base();
    let first = config.publish_autodiscover(&a_select(&config));
    let second = config.clone().publish_autodiscover(&a_select(&config).clone());
    assert_eq!(first.topic.as_bytes(), second.topic.as_bytes());
    assert_eq!(first.payload.as_bytes(), second.payload.as_bytes());
}

#[test]
fn copies_hold_the_same_settings() {
    let config = base();
    let copy = config.clone();
    assert_eq!(copy.app_name, "desktop");
    assert_eq!(copy.mqtt.server_host, "broker.lan");
    assert_eq!(copy.mqtt.server_port, 8883);
    assert_eq!(copy.homeassistant.autodiscover_prefix, "ha");
    assert_eq!(copy.homeassistant.device.name(), "desk");
    assert_eq!(copy.pulseaudio.state_topic, "pulse/state");
    assert_eq!(copy.sway.name_prefix, "sway_");
    assert_eq!(copy.sway.availability.payload_not_available, "offline");
    assert_eq!(copy.switch_on_value, "ON");
    assert_eq!(copy.switch_off_value, "OFF");
}

#[test]
fn script_keeps_its_command() {
    assert_eq!(ScriptConfig::new("notify-send hi".to_string()).command(), "notify-send hi");
}

#[test]
fn availability_starts_offline_with_the_fallback() {
    let (manager, will) = AvailabilityManager::arm(record("sway/available"));
    assert!(!manager.is_online());
    assert_eq!(will.topic, "sway/available");
    assert_eq!(will.payload, "offline");
    assert_eq!(will.qos, QoS::AtLeastOnce);
    assert!(will.retain);
}

#[test]
fn availability_fallback_is_retained_whatever_the_settings_say() {
    let mut config = base();
    config.mqtt.retain_last_will = false;
    let (_, will) = AvailabilityManager::arm(config.pulseaudio.availability.clone());
    assert!(will.retain);
    assert!(config.get_client(&config.pulseaudio).last_will.retain);
}

#[test]
fn availability_fallback_is_what_the_connection_registers() {
    let config = base();
    let (_, will) = AvailabilityManager::arm(config.sway.availability.clone());
    let options = config.get_client(&config.sway);
    assert_eq!(options.last_will.topic, will.topic);
    assert_eq!(options.last_will.payload, will.payload);
    assert_eq!(options.last_will.qos, will.qos);
    assert_eq!(options.last_will.retain, will.retain);
}

#[test]
fn availability_waits_for_both_loops() {
    let (mut manager, _) = AvailabilityManager::arm(record("t"));
    assert!(manager.declare_online().is_none());
    assert!(!manager.is_online());
    manager.state_loop_started();
    assert!(manager.declare_online().is_none());
    assert!(!manager.is_online());
    manager.command_loop_started();
    let message = manager.declare_online().unwrap();
    assert!(manager.is_online());
    assert_eq!(message.topic, "t");
    assert_eq!(message.payload, "online");
    assert_eq!(message.qos, QoS::AtLeastOnce);
    assert!(message.retain);
}

#[test]
fn availability_waits_for_the_state_loop_too() {
    let (mut manager, _) = AvailabilityManager::arm(record("t"));
    manager.command_loop_started();
    assert!(manager.declare_online().is_none());
    assert!(!manager.is_online());
    manager.state_loop_started();
    assert!(manager.declare_online().is_some());
    assert!(manager.is_online());
}

#[test]
fn availability_online_message_is_retained() {
    for bridge in ["sway/available", "pulse/available"] {
        let (mut manager, will) = AvailabilityManager::arm(record(bridge));
        manager.state_loop_started();
        manager.command_loop_started();
        let online = manager.declare_online().unwrap();
        assert!(online.retain);
        assert_eq!(online.qos, QoS::AtLeastOnce);
        assert_eq!(online.topic, will.topic);
        assert_eq!(online.payload, "online");
    }
}

#[test]
fn availability_stays_online() {
    let (mut manager, _) = AvailabilityManager::arm(record("t"));
    manager.state_loop_started();
    manager.command_loop_started();
    assert!(manager.declare_online().is_some());
    assert_eq!(manager.declare_online().unwrap().payload, "online");
    manager.state_loop_started();
    assert!(manager.is_online());
}

#[test]
fn snapshot_is_wanted_for_sink_events_only() {
    for event_type in [EventType::Change, EventType::Remove, EventType::Unknown] {
        assert!(triggers_snapshot(&PulseEvent { event_type, target: EventTarget::Sink }));
        assert!(!triggers_snapshot(&PulseEvent { event_type, target: EventTarget::Client }));
        assert!(!triggers_snapshot(&PulseEvent { event_type, target: EventTarget::Unknown }));
    }
}

#[test]
fn snapshot_of_three_answers() {
    let volume = Volume { value: 1, value_percent: "42%".to_string(), db: "x".to_string() };
    let state =
        PulseState::assemble(Ok(vec![a_sink("a"), a_sink("b")]), Ok(a_sink("b")), Ok(volume)).unwrap();
    assert_eq!(state.sinks.len(), 2);
    assert_eq!(state.sinks[0].name, "a");
    assert_eq!(state.sinks[1].name, "b");
    assert_eq!(state.current_sink, "b");
    assert_eq!(state.current_volume, "42%");
}

#[test]
fn snapshot_is_not_made_without_every_answer() {
    let failed = || ControlError::PulseError("no".to_string());
    let volume = || Volume { value: 1, value_percent: "42%".to_string(), db: "x".to_string() };
    assert_eq!(
        PulseState::assemble(Err(failed()), Ok(a_sink("b")), Ok(volume())).err(),
        Some(MissingPart::Sinks)
    );
    assert_eq!(
        PulseState::assemble(Ok(Vec::new()), Err(failed()), Ok(volume())).err(),
        Some(MissingPart::DefaultSink)
    );
    assert_eq!(
        PulseState::assemble(Ok(Vec::new()), Ok(a_sink("b")), Err(failed())).err(),
        Some(MissingPart::DefaultVolume)
    );
    assert_eq!(
        PulseState::assemble(Err(failed()), Err(failed()), Err(failed())).err(),
        Some(MissingPart::Sinks)
    );
    assert_eq!(
        PulseState::assemble(Ok(Vec::new()), Err(failed()), Err(failed())).err(),
        Some(MissingPart::DefaultSink)
    );
}

#[test]
fn pulse_state_message_is_not_retained() {
    let state = PulseState {
        sinks: Vec::new(),
        current_sink: "a".to_string(),
        current_volume: "10%".to_string(),
    };
    let message = state_message(&base(), &state);
    assert_eq!(message.topic, "pulse/state");
    assert_eq!(message.payload, "{\"sinks\":[],\"current_sink\":\"a\",\"current_volume\":\"10%\"}");
    assert_eq!(message.qos, QoS::AtLeastOnce);
    assert!(!message.retain);
}

#[test]
fn snapshot_document() {
    let mut channels = ChannelVolumes::new();
    channels.insert(
        "front-left".to_string(),
        Volume { value: 48000, value_percent: "73%".to_string(), db: "-8.12 dB".to_string() },
    );
    channels.insert(
        "front-right".to_string(),
        Volume { value: 65536, value_percent: "100%".to_string(), db: "0.00 dB".to_string() },
    );
    let mut sink = a_sink("alsa \"out\"");
    sink.index = 4294967295;
    sink.volume = channels;
    let state = PulseState {
        sinks: vec![sink, a_sink("b")],
        current_sink: "b".to_string(),
        current_volume: "73%".to_string(),
    };
    assert_eq!(
        state.to_json(),
        "{\"sinks\":[{\"index\":4294967295,\"state\":\"IDLE\",\"name\":\"alsa \\\"out\\\"\",\
         \"mute\":true,\"channel_map\":\"mono\",\"volume\":{\
         \"front-left\":{\"value\":48000,\"value_percent\":\"73%\",\"db\":\"-8.12 dB\"},\
         \"front-right\":{\"value\":65536,\"value_percent\":\"100%\",\"db\":\"0.00 dB\"}}},\
         {\"index\":1,\"state\":\"IDLE\",\"name\":\"b\",\"mute\":true,\"channel_map\":\"mono\",\
         \"volume\":{}}],\"current_sink\":\"b\",\"current_volume\":\"73%\"}"
    );
}

#[test]
fn snapshot_document_reads_back() {
    let mut channels = ChannelVolumes::new();
    channels.insert(
        "mono".to_string(),
        Volume { value: 7, value_percent: "0%".to_string(), db: "-inf dB".to_string() },
    );
    let mut sink = a_sink("x");
    sink.mute = false;
    sink.volume = channels;
    let state = PulseState {
        sinks: vec![sink],
        current_sink: "x".to_string(),
        current_volume: "0%".to_string(),
    };
    let document: serde_json::Value = serde_json::from_str(&state.to_json()).unwrap();
    assert_eq!(document["sinks"][0]["index"], 1);
    assert_eq!(document["sinks"][0]["name"], "x");
    assert_eq!(document["sinks"][0]["mute"], false);
    assert_eq!(document["sinks"][0]["volume"]["mono"]["value"], 7);
    assert_eq!(document["sinks"][0]["volume"]["mono"]["db"], "-inf dB");
    assert_eq!(document["current_sink"], "x");
    assert_eq!(document["current_volume"], "0%");
}

#[test]
fn parts_of_a_snapshot_document() {
    let volume = Volume { value: 0, value_percent: "0%".to_string(), db: "".to_string() };
    assert_eq!(volume.to_json(), "{\"value\":0,\"value_percent\":\"0%\",\"db\":\"\"}");
    assert_eq!(ChannelVolumes::new().to_json(), "{}");
    assert_eq!(sinks_to_json(&Vec::new()), "[]");
    assert_eq!(
        sinks_to_json(&vec![a_sink("a")]),
        "[{\"index\":1,\"state\":\"IDLE\",\"name\":\"a\",\"mute\":true,\"channel_map\":\"mono\",\"volume\":{}}]"
    );
}

#[test]
fn audio_bridge_takes_its_own_topic_only() {
    let config = base();
    assert!(is_command_topic(&config, "pulse/cmd"));
    assert!(!is_command_topic(&config, "sway/cmd"));
    assert!(!is_command_topic(&config, "pulse/cmd/x"));
    assert!(!is_command_topic(&config, ""));
}
