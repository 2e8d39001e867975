use desktop_bridge::pulsectl::framer::{Framer, DELIMITER};
use desktop_bridge::pulsectl::{
    decode_unit, ChannelVolumes, ControlError, EventStream, EventTarget, EventType, PulseEvent,
    Pulseaudio, SinkInfo, Volume,
};

const TEST_CLIENT_NAME: &str = "test-client";

fn volume(value: u32, percent: &str) -> Volume {
    Volume { value, value_percent: percent.to_string(), db: "-6.00 dB".to_string() }
}

fn sink(index: u32, name: &str) -> SinkInfo {
    let mut channels = ChannelVolumes::new();
    channels.insert("front-left".to_string(), volume(48000, "73%"));
    channels.insert("front-right".to_string(), volume(48000, "73%"));
    SinkInfo {
        index,
        state: "RUNNING".to_string(),
        name: name.to_string(),
        mute: false,
        channel_map: "front-left,front-right".to_string(),
        volume: channels,
    }
}

fn events(outcomes: Vec<Result<PulseEvent, ControlError>>) -> Vec<PulseEvent> {
    outcomes.into_iter().filter_map(|outcome| outcome.ok()).collect()
}

#[test]
fn framer_hands_out_a_unit_when_it_ends() {
    let mut framer = Framer::new();
    assert!(framer.feed(b"{\"a\":1").is_empty());
    assert_eq!(framer.pending_len(), 6);
    assert_eq!(framer.feed(b"}"), vec![b"{\"a\":1}".to_vec()]);
    assert_eq!(framer.pending_len(), 0);
}

#[test]
fn framer_hands_out_every_unit_of_a_chunk() {
    let mut framer = Framer::new();
    let frames = framer.feed(b"{\"a\":1}\n{\"b\":2}\n{\"c\"");
    assert_eq!(frames, vec![b"{\"a\":1}".to_vec(), b"\n{\"b\":2}".to_vec()]);
    assert_eq!(framer.pending_len(), 5);
    assert_eq!(framer.feed(b":3}"), vec![b"\n{\"c\":3}".to_vec()]);
}

#[test]
fn framer_of_an_empty_chunk() {
    let mut framer = Framer::new();
    assert!(framer.feed(b"").is_empty());
    assert_eq!(framer.pending_len(), 0);
    assert!(framer.feed(b"abc").is_empty());
    assert!(framer.feed(b"").is_empty());
    assert_eq!(framer.pending_len(), 3);
}

#[test]
fn framer_of_a_lone_delimiter() {
    let mut framer = Framer::new();
    assert_eq!(DELIMITER, b'}');
    assert_eq!(framer.feed(b"}}"), vec![b"}".to_vec(), b"}".to_vec()]);
    assert_eq!(framer.pending_len(), 0);
}

#[test]
fn framer_cuts_the_same_whatever_the_chunks() {
    let stream: &[u8] = b"{\"event\":\"change\"}{\"x\":\"y\"} \n{}tail";
    let mut whole = Framer::new();
    let expected = whole.feed(stream);
    assert_eq!(expected.len(), 3);
    for size in 1..=stream.len() {
        let mut framer = Framer::new();
        let mut frames: Vec<Vec<u8>> = Vec::new();
        for chunk in stream.chunks(size) {
            frames.extend(framer.feed(chunk));
        }
        assert_eq!(frames, expected);
        assert_eq!(framer.pending_len(), 4);
    }
}

#[test]
fn decode_unit_reads_kind_and_target() {
    let event = decode_unit(b"{\"index\":61,\"event\":\"change\",\"on\":\"sink\"}".to_vec()).unwrap();
    assert_eq!(event, PulseEvent { event_type: EventType::Change, target: EventTarget::Sink });
    let event = decode_unit(b"{\"index\":7,\"event\":\"remove\",\"on\":\"client\"}".to_vec()).unwrap();
    assert_eq!(event, PulseEvent { event_type: EventType::Remove, target: EventTarget::Client });
}

#[test]
fn decode_unit_takes_what_it_does_not_know_as_unknown() {
    let event = decode_unit(b"{\"event\":\"new\",\"on\":\"sink-input\"}".to_vec()).unwrap();
    assert_eq!(event, PulseEvent { event_type: EventType::Unknown, target: EventTarget::Unknown });
    let event = decode_unit(b"{}".to_vec()).unwrap();
    assert_eq!(event, PulseEvent { event_type: EventType::Unknown, target: EventTarget::Unknown });
    let event = decode_unit(b"{\"event\":3,\"on\":null}".to_vec()).unwrap();
    assert_eq!(event, PulseEvent { event_type: EventType::Unknown, target: EventTarget::Unknown });
    let event = decode_unit(b"{\"event\":\"Change\",\"on\":\"sink\"}".to_vec()).unwrap();
    assert_eq!(event, PulseEvent { event_type: EventType::Unknown, target: EventTarget::Sink });
}

#[test]
fn decode_unit_reports_bytes_that_are_no_text() {
    assert!(matches!(decode_unit(vec![0xff, b'}']), Err(ControlError::Utf8Error(_))));
}

#[test]
fn decode_unit_reports_text_that_is_no_object() {
    assert!(matches!(decode_unit(b"event}".to_vec()), Err(ControlError::JsonError(_))));
    assert!(matches!(decode_unit(b"}".to_vec()), Err(ControlError::JsonError(_))));
    assert!(matches!(decode_unit(b"".to_vec()), Err(ControlError::JsonError(_))));
}

#[test]
fn subscribe() {
    let pulse = Pulseaudio::new(TEST_CLIENT_NAME);
    let mut stream = pulse.subscribe();
    let output: &[u8] = b"{\"index\":61,\"event\":\"change\",\"on\":\"sink\"}\n\
        {\"index\":912,\"event\":\"new\",\"on\":\"client\"}\n\
        {\"index\":912,\"event\":\"remove\",\"on\":\"client\"}\n";
    let seen = events(stream.feed(output));
    assert_eq!(
        seen,
        vec![
            PulseEvent { event_type: EventType::Change, target: EventTarget::Sink },
            PulseEvent { event_type: EventType::Unknown, target: EventTarget::Client },
            PulseEvent { event_type: EventType::Remove, target: EventTarget::Client },
        ]
    );
}

#[test]
fn event_stream_gives_one_event_for_each_unit_whatever_the_chunks() {
    let output: &[u8] = b"{\"index\":61,\"event\":\"change\",\"on\":\"sink\"}\n\
        {\"index\":912,\"event\":\"new\",\"on\":\"client\"}\n\
        {\"index\":3,\"event\":\"remove\",\"on\":\"sink\"}\n\
        {\"index\":912,\"event\":\"remove\",\"on\":\"card\"}\n";
    let expected = vec![
        PulseEvent { event_type: EventType::Change, target: EventTarget::Sink },
        PulseEvent { event_type: EventType::Unknown, target: EventTarget::Client },
        PulseEvent { event_type: EventType::Remove, target: EventTarget::Sink },
        PulseEvent { event_type: EventType::Remove, target: EventTarget::Unknown },
    ];
    for size in 1..=output.len() {
        let mut stream = EventStream::new();
        let mut seen: Vec<PulseEvent> = Vec::new();
        for chunk in output.chunks(size) {
            for outcome in stream.feed(chunk) {
                seen.push(outcome.unwrap());
            }
        }
        assert_eq!(seen, expected);
    }
}

#[test]
fn event_stream_goes_on_after_a_malformed_unit() {
    let mut stream = EventStream::new();
    let outcomes = stream.feed(b"{\"event\":\"change\",\"on\":\"sink\"}garbage}{\"event\":\"remove\",\"on\":\"sink\"}");
    assert_eq!(outcomes.len(), 3);
    assert!(matches!(
        outcomes[0],
        Ok(PulseEvent { event_type: EventType::Change, target: EventTarget::Sink })
    ));
    assert!(matches!(outcomes[1], Err(ControlError::JsonError(_))));
    assert!(matches!(
        outcomes[2],
        Ok(PulseEvent { event_type: EventType::Remove, target: EventTarget::Sink })
    ));
}

#[test]
fn event_stream_keeps_an_unfinished_unit_to_itself() {
    let mut stream = EventStream::new();
    assert!(stream.feed(b"{\"event\":\"change\",\"on\":\"sink\"").is_empty());
    assert!(stream.feed(b"").is_empty());
    assert_eq!(stream.feed(b"}").len(), 1);
}

#[test]
fn client_name_is_kept() {
    assert_eq!(Pulseaudio::new(TEST_CLIENT_NAME).client_name(), "test-client");
}

#[test]
fn run_error_cmd() {
    let pulse = Pulseaudio::new(TEST_CLIENT_NAME);
    {
        let result = pulse.command_outcome(false, b"Invalid command 'blub'\n".to_vec());
        let error = result.err().unwrap();
        assert!(matches!(error, ControlError::PulseError(_)));
    }
    {
        let result = pulse.command_outcome(false, b"Specify nothing, or one of: modules, sinks\n".to_vec());
        let error = result.err().unwrap();
        assert!(matches!(error, ControlError::PulseError(text) if text == "Specify nothing, or one of: modules, sinks\n"));
    }
}

#[test]
fn command_outcome_of_success() {
    let pulse = Pulseaudio::new(TEST_CLIENT_NAME);
    assert!(pulse.command_outcome(true, Vec::new()).is_ok());
    assert!(pulse.command_outcome(true, vec![0xff]).is_ok());
}

#[test]
fn command_outcome_of_failure_without_text() {
    let pulse = Pulseaudio::new(TEST_CLIENT_NAME);
    assert!(matches!(pulse.command_outcome(false, vec![0xff]), Err(ControlError::Utf8Error(_))));
    assert!(matches!(pulse.command_outcome(false, Vec::new()), Err(ControlError::PulseError(text)) if text.is_empty()));
}

#[test]
fn output_text_of_an_answer() {
    let pulse = Pulseaudio::new(TEST_CLIENT_NAME);
    assert_eq!(pulse.output_text(b"[{\"index\":0}]".to_vec()).unwrap(), "[{\"index\":0}]");
    assert!(matches!(pulse.output_text(vec![b'[', 0xfe]), Err(ControlError::Utf8Error(_))));
}

#[test]
fn set_default_sink() {
    let pulse = Pulseaudio::new(TEST_CLIENT_NAME);
    let sinks = vec![sink(0, "alsa_output.pci.analog-stereo"), sink(1, "bluez_output.headset")];
    let mut default_sink_name = String::new();
    for sink in &sinks {
        let command = pulse.set_default_sink(sink);
        assert_eq!(command, format!("set-default-sink {}", sink.name));
        default_sink_name = command["set-default-sink ".len()..].to_string();
        assert!(default_sink_name == sink.name);
    }
    assert_eq!(default_sink_name, "bluez_output.headset");
}

#[test]
fn volume_up_down() {
    let pulse = Pulseaudio::new(TEST_CLIENT_NAME);
    assert_eq!(pulse.volume_up(5), "set-sink-volume @DEFAULT_SINK@ +5%");
    assert_eq!(pulse.volume_down(5), "set-sink-volume @DEFAULT_SINK@ -5%");
}

#[test]
fn volume_steps_of_every_width() {
    let pulse = Pulseaudio::new(TEST_CLIENT_NAME);
    assert_eq!(pulse.volume_up(0), "set-sink-volume @DEFAULT_SINK@ +0%");
    assert_eq!(pulse.volume_up(10), "set-sink-volume @DEFAULT_SINK@ +10%");
    assert_eq!(pulse.volume_up(255), "set-sink-volume @DEFAULT_SINK@ +255%");
    assert_eq!(pulse.volume_down(0), "set-sink-volume @DEFAULT_SINK@ -0%");
    assert_eq!(pulse.volume_down(100), "set-sink-volume @DEFAULT_SINK@ -100%");
}

#[test]
fn volume_up_and_down_differ_in_the_sign_alone() {
    let pulse = Pulseaudio::new(TEST_CLIENT_NAME);
    for step in [0u8, 1, 5, 17, 100, 255] {
        let up = pulse.volume_up(step);
        let down = pulse.volume_down(step);
        assert_eq!(up.replace('+', "-"), down);
    }
}

#[test]
fn toggle_mute() {
    let pulse = Pulseaudio::new(TEST_CLIENT_NAME);
    assert_eq!(pulse.toggle_mute(), "set-sink-mute @DEFAULT_SINK@ toggle");
}

#[test]
fn find_sink_by_name_finds_the_first() {
    let pulse = Pulseaudio::new(TEST_CLIENT_NAME);
    let sinks = vec![sink(0, "a"), sink(1, "b"), sink(2, "b")];
    assert_eq!(pulse.find_sink_by_name(&sinks, "b").unwrap().index, 1);
    assert_eq!(pulse.find_sink_by_name(&sinks, "a").unwrap().index, 0);
    assert!(pulse.find_sink_by_name(&sinks, "c").is_none());
    assert!(pulse.find_sink_by_name(&Vec::new(), "a").is_none());
}

#[test]
fn get_default_sink_finds_the_last() {
    let pulse = Pulseaudio::new(TEST_CLIENT_NAME);
    let sinks = vec![sink(0, "a"), sink(1, "b"), sink(2, "b"), sink(3, "c")];
    assert_eq!(pulse.get_default_sink(&sinks, "b").unwrap().index, 2);
    assert_eq!(pulse.get_default_sink(&sinks, "a").unwrap().index, 0);
    assert_eq!(pulse.get_default_sink(&sinks, "c").unwrap().index, 3);
}

#[test]
fn get_default_sink_without_a_match() {
    let pulse = Pulseaudio::new(TEST_CLIENT_NAME);
    let sinks = vec![sink(0, "a")];
    assert!(matches!(
        pulse.get_default_sink(&sinks, "z"),
        Err(ControlError::PulseError(text)) if text == "could not get default sink"
    ));
    assert!(matches!(
        pulse.get_default_sink(&Vec::new(), "a"),
        Err(ControlError::PulseError(text)) if text == "could not get default sink"
    ));
}

#[test]
fn get_default_volume_string() {
    let pulse = Pulseaudio::new(TEST_CLIENT_NAME);
    let volume = pulse.get_default_volume(&sink(0, "a")).unwrap().value_percent;
    assert!(!volume.is_empty());
    assert!(volume.contains("%"));
}

#[test]
fn get_default_volume_is_that_of_the_front_left_channel() {
    let pulse = Pulseaudio::new(TEST_CLIENT_NAME);
    let mut channels = ChannelVolumes::new();
    channels.insert("front-right".to_string(), volume(100, "1%"));
    channels.insert("front-left".to_string(), volume(65536, "100%"));
    let mut default_sink = sink(0, "a");
    default_sink.volume = channels;
    let found = pulse.get_default_volume(&default_sink).unwrap();
    assert_eq!(found.value, 65536);
    assert_eq!(found.value_percent, "100%");
    assert_eq!(found.db, "-6.00 dB");
}

#[test]
fn get_default_volume_without_the_channel() {
    let pulse = Pulseaudio::new(TEST_CLIENT_NAME);
    let mut channels = ChannelVolumes::new();
    channels.insert("mono".to_string(), volume(100, "1%"));
    let mut default_sink = sink(0, "a");
    default_sink.volume = channels;
    assert!(matches!(
        pulse.get_default_volume(&default_sink),
        Err(ControlError::PulseError(text)) if text == "channel does not exist"
    ));
}

#[test]
fn cycle_sinks() {
    let pulse = Pulseaudio::new(TEST_CLIENT_NAME);
    let sinks = vec![sink(0, "A"), sink(1, "B"), sink(2, "C")];
    let count = sinks.len();
    let first_sink = "B".to_string();
    let mut default_sink_name = first_sink.clone();
    for _ in 0..count - 1 {
        default_sink_name = pulse.cycle_sinks(&sinks, &default_sink_name).unwrap().name.clone();
        assert_ne!(first_sink, default_sink_name);
    }
    // should be at the first one now
    default_sink_name = pulse.cycle_sinks(&sinks, &default_sink_name).unwrap().name.clone();
    assert_eq!(first_sink, default_sink_name);
}

#[test]
fn cycle_sinks_goes_round() {
    let pulse = Pulseaudio::new(TEST_CLIENT_NAME);
    let sinks = vec![sink(0, "A"), sink(1, "B"), sink(2, "C")];
    assert_eq!(pulse.cycle_sinks(&sinks, "B").unwrap().name, "C");
    assert_eq!(pulse.cycle_sinks(&sinks, "C").unwrap().name, "A");
    assert_eq!(pulse.cycle_sinks(&sinks, "A").unwrap().name, "B");
}

#[test]
fn cycle_sinks_of_a_single_sink() {
    let pulse = Pulseaudio::new(TEST_CLIENT_NAME);
    let sinks = vec![sink(4, "only")];
    assert_eq!(pulse.cycle_sinks(&sinks, "only").unwrap().index, 4);
}

#[test]
fn cycle_sinks_goes_by_the_first_of_a_name() {
    let pulse = Pulseaudio::new(TEST_CLIENT_NAME);
    let sinks = vec![sink(0, "A"), sink(1, "B"), sink(2, "A"), sink(3, "C")];
    assert_eq!(pulse.cycle_sinks(&sinks, "A").unwrap().index, 1);
}

#[test]
fn cycle_sinks_without_a_default() {
    let pulse = Pulseaudio::new(TEST_CLIENT_NAME);
    let sinks = vec![sink(0, "A"), sink(1, "B")];
    assert!(matches!(
        pulse.cycle_sinks(&sinks, "Z"),
        Err(ControlError::PulseError(text)) if text == "Couldn't cycle sinks"
    ));
    assert!(matches!(
        pulse.cycle_sinks(&Vec::new(), "A"),
        Err(ControlError::PulseError(text)) if text == "Couldn't cycle sinks"
    ));
}

#[test]
fn channel_volumes_start_empty() {
    let channels = ChannelVolumes::new();
    assert_eq!(channels.len(), 0);
    assert!(channels.get("front-left").is_none());
}

#[test]
fn channel_volumes_keep_one_entry_for_each_name() {
    let mut channels = ChannelVolumes::new();
    channels.insert("front-left".to_string(), volume(1, "1%"));
    channels.insert("front-right".to_string(), volume(2, "2%"));
    channels.insert("front-left".to_string(), volume(3, "3%"));
    assert_eq!(channels.len(), 2);
    assert_eq!(channels.name_at(0), "front-left");
    assert_eq!(channels.name_at(1), "front-right");
    assert_eq!(channels.volume_at(0).value, 3);
    assert_eq!(channels.volume_at(1).value, 2);
    assert_eq!(channels.get("front-left").unwrap().value_percent, "3%");
    assert_eq!(channels.get("front-right").unwrap().value_percent, "2%");
    assert!(channels.get("rear-left").is_none());
    assert!(channels.get("").is_none());
}

#[test]
fn channel_volumes_copy_holds_the_same() {
    let mut channels = ChannelVolumes::new();
    channels.insert("mono".to_string(), volume(7, "7%"));
    let copy = channels.clone();
    assert_eq!(copy.len(), 1);
    assert_eq!(copy.get("mono").unwrap().value, 7);
    let first = sink(3, "a");
    let twin = first.clone();
    assert_eq!(twin.index, 3);
    assert_eq!(twin.name, "a");
    assert_eq!(twin.volume.len(), 2);
}
