//! The audio bridge: when it takes a snapshot of the audio server, what
//! the snapshot holds, and where it is published.

use crate::broker::{Publication, PublicationView, QoS};
use crate::config::Config;
use crate::json::{push_member, string_literal};
use crate::pulsectl::types::{sinks_json, sinks_to_json, sinks_view, ControlError, EventTarget,
    PulseEvent, SinkInfo, SinkInfoView, Volume};
use crate::text::text_eq;
use vstd::prelude::*;
use vstd::string::*;

verus! {

/// A snapshot of the audio server: all sinks, the default sink by name,
/// and the default sink's volume as a percentage.
pub struct PulseState {
    pub sinks: Vec<SinkInfo>,
    pub current_sink: String,
    pub current_volume: String,
}

pub struct PulseStateView {
    pub sinks: Seq<SinkInfoView>,
    pub current_sink: Seq<char>,
    pub current_volume: Seq<char>,
}

impl View for PulseState {
    type V = PulseStateView;

    open spec fn view(&self) -> PulseStateView {
        PulseStateView {
            sinks: sinks_view(self.sinks@),
            current_sink: self.current_sink@,
            current_volume: self.current_volume@,
        }
    }
}

/// The document of a snapshot, as it is published.
pub open spec fn state_json(state: PulseStateView) -> Seq<char> {
    "{\"sinks\":"@ + sinks_json(state.sinks) + ",\"current_sink\":"@ + string_literal(
        state.current_sink,
    ) + ",\"current_volume\":"@ + string_literal(state.current_volume) + "}"@
}

/// The part of a snapshot that could not be had.
#[derive(Clone, Copy, Debug, PartialEq, Eq, Structural)]
pub enum MissingPart {
    Sinks,
    DefaultSink,
    DefaultVolume,
}

/// Whether `event` calls for a new snapshot: what happens to a sink does,
/// and nothing else.
pub fn triggers_snapshot(event: &PulseEvent) -> (wanted: bool)
    ensures
        wanted == (event.target == EventTarget::Sink),
{
    match event.target {
        EventTarget::Sink => true,
        _ => false,
    }
}

impl PulseState {
    /// Puts a snapshot together from the answers to its three queries.
    /// There is a snapshot only where every query was answered: one that
    /// lacks a part is never made up from what is left. The error names
    /// the first part that is missing.
    pub fn assemble(
        sinks: Result<Vec<SinkInfo>, ControlError>,
        current_sink: Result<SinkInfo, ControlError>,
        current_volume: Result<Volume, ControlError>,
    ) -> (snapshot: Result<PulseState, MissingPart>)
        ensures
            match snapshot {
                Ok(state) => {
                    &&& sinks matches Ok(all)
                    &&& current_sink matches Ok(sink)
                    &&& current_volume matches Ok(volume)
                    &&& state@ == (PulseStateView {
                        sinks: sinks_view(all@),
                        current_sink: sink@.name,
                        current_volume: volume@.value_percent,
                    })
                },
                Err(part) => part == (if sinks is Err {
                    MissingPart::Sinks
                } else if current_sink is Err {
                    MissingPart::DefaultSink
                } else {
                    MissingPart::DefaultVolume
                }) && (sinks is Err || current_sink is Err || current_volume is Err),
            },
    {
        let sinks = match sinks {
            Ok(sinks) => sinks,
            Err(_) => { return Err(MissingPart::Sinks); },
        };
        let current_sink = match current_sink {
            Ok(sink) => sink,
            Err(_) => { return Err(MissingPart::DefaultSink); },
        };
        let current_volume = match current_volume {
            Ok(volume) => volume,
            Err(_) => { return Err(MissingPart::DefaultVolume); },
        };
        Ok(
            PulseState {
                sinks,
                current_sink: current_sink.name,
                current_volume: current_volume.value_percent,
            },
        )
    }
}

impl PulseState {
    /// Writes the snapshot as the document that is published.
    pub fn to_json(&self) -> (json: String)
        ensures
            json@ == state_json(self@),
    {
        let sinks = sinks_to_json(&self.sinks);
        let mut json = String::from_str("{\"sinks\":");
        json.append(sinks.as_str());
        push_member(&mut json, ",\"current_sink\":", self.current_sink.as_str());
        push_member(&mut json, ",\"current_volume\":", self.current_volume.as_str());
        json.append("}");
        json
    }
}

/// The message that carries a state snapshot. It is not retained: the
/// state topic tells what holds now, to those who listen now.
pub fn state_message(config: &Config, snapshot: &PulseState) -> (message: Publication)
    ensures
        message@ == (PublicationView {
            topic: config@.pulseaudio.state_topic,
            payload: state_json(snapshot@),
            qos: QoS::AtLeastOnce,
            retain: false,
        }),
{
    Publication {
        topic: config.pulseaudio.state_topic.clone(),
        payload: snapshot.to_json(),
        qos: QoS::AtLeastOnce,
        retain: false,
    }
}

/// Whether a message that arrived on `topic` is for this bridge: only
/// what comes on its command topic is.
pub fn is_command_topic(config: &Config, topic: &str) -> (ours: bool)
    ensures
        ours == (topic@ == config@.pulseaudio.command_topic),
{
    text_eq(topic, config.pulseaudio.command_topic.as_str())
}

} // verus!
