//! The audio server, as far as the bridge deals with it: the
//! notifications it streams, the commands it takes, and what its answers
//! say of the sinks.

pub mod framer;
pub mod types;

pub use crate::pulsectl::types::{ChannelVolumes, ControlError, EventTarget, EventType, PulseEvent,
    ServerInfo, SinkInfo, Volume};

use crate::json::{find_text, members_model, object_members, parse_object, text_member,
    JsonMember, MemberModel};
use crate::pulsectl::framer::{frames_view, pending, units, Framer};
use crate::pulsectl::types::{sinks_view, ControlErrorView, SinkInfoView};
use crate::text::{decimal, decimal_text, text_eq, utf8_string};
use vstd::arithmetic::div_mod::{lemma_add_mod_noop_right, lemma_mod_add_multiples_vanish,
    lemma_mod_bound, lemma_mod_self_0, lemma_small_mod};
use vstd::prelude::*;
use vstd::string::*;
use vstd::utf8::{decode_utf8, valid_utf8};

verus! {

/// What a notification says happened, by the text under `event`.
pub open spec fn event_type_of(label: Option<Seq<char>>) -> EventType {
    match label {
        Some(text) => if text == "change"@ {
            EventType::Change
        } else if text == "remove"@ {
            EventType::Remove
        } else {
            EventType::Unknown
        },
        None => EventType::Unknown,
    }
}

/// What a notification is about, by the text under `on`.
pub open spec fn event_target_of(label: Option<Seq<char>>) -> EventTarget {
    match label {
        Some(text) => if text == "sink"@ {
            EventTarget::Sink
        } else if text == "client"@ {
            EventTarget::Client
        } else {
            EventTarget::Unknown
        },
        None => EventTarget::Unknown,
    }
}

/// The event that the members of a decoded notification spell. What is
/// missing or not known by name is `Unknown`, never an error.
pub open spec fn event_of(members: Seq<MemberModel>) -> PulseEvent {
    PulseEvent {
        event_type: event_type_of(text_member(members, "event"@)),
        target: event_target_of(text_member(members, "on"@)),
    }
}

/// What `unit` decodes to: bytes to text, text to a JSON object, the
/// object to an event. Each of the first two steps can fail.
pub open spec fn decoded(unit: Seq<u8>) -> Result<PulseEvent, ControlErrorView> {
    if !valid_utf8(unit) {
        Err(ControlErrorView::Utf8Error)
    } else {
        match object_members(decode_utf8(unit)) {
            Some(members) => Ok(event_of(members)),
            None => Err(ControlErrorView::JsonError),
        }
    }
}

/// The view of the outcome for one unit.
pub open spec fn outcome_view(outcome: Result<PulseEvent, ControlError>) -> Result<
    PulseEvent,
    ControlErrorView,
> {
    match outcome {
        Ok(event) => Ok(event),
        Err(e) => Err(e@),
    }
}

/// The views of the outcomes for a run of units, in order.
pub open spec fn outcomes_view(outcomes: Seq<Result<PulseEvent, ControlError>>) -> Seq<
    Result<PulseEvent, ControlErrorView>,
> {
    outcomes.map_values(|o: Result<PulseEvent, ControlError>| outcome_view(o))
}

/// What each of `frames` decodes to, in order.
pub open spec fn decoded_all(frames: Seq<Seq<u8>>) -> Seq<Result<PulseEvent, ControlErrorView>> {
    frames.map_values(|unit: Seq<u8>| decoded(unit))
}

/// What the units that end within `bytes` decode to, in order.
pub open spec fn decoded_units(bytes: Seq<u8>) -> Seq<Result<PulseEvent, ControlErrorView>> {
    decoded_all(units(bytes))
}

impl PulseEvent {
    /// Reads an event from the members of a decoded notification.
    pub fn from_members(members: &Vec<JsonMember>) -> (event: PulseEvent)
        ensures
            event == event_of(members_model(members@)),
    {
        let event_type = match find_text(members, "event") {
            Some(text) => if text_eq(text, "change") {
                EventType::Change
            } else if text_eq(text, "remove") {
                EventType::Remove
            } else {
                EventType::Unknown
            },
            None => EventType::Unknown,
        };
        let target = match find_text(members, "on") {
            Some(text) => if text_eq(text, "sink") {
                EventTarget::Sink
            } else if text_eq(text, "client") {
                EventTarget::Client
            } else {
                EventTarget::Unknown
            },
            None => EventTarget::Unknown,
        };
        PulseEvent { event_type, target }
    }
}

/// Decodes one unit of the notification stream. A unit that is no text,
/// or no JSON object, gives an error that says which.
pub fn decode_unit(unit: Vec<u8>) -> (outcome: Result<PulseEvent, ControlError>)
    ensures
        outcome_view(outcome) == decoded(unit@),
{
    let text = match utf8_string(unit) {
        Ok(text) => text,
        Err(e) => { return Err(ControlError::from(e)); },
    };
    match parse_object(text.as_str()) {
        Ok(members) => Ok(PulseEvent::from_members(&members)),
        Err(e) => Err(ControlError::from(e)),
    }
}

/// The notifications of the audio server, decoded from its byte stream.
pub struct EventStream {
    framer: Framer,
}

impl View for EventStream {
    type V = Seq<u8>;

    /// The bytes that were fed since the last unit ended.
    closed spec fn view(&self) -> Seq<u8> {
        self.framer@
    }
}

impl EventStream {
    /// A stream at its start.
    pub fn new() -> (stream: Self)
        ensures
            stream@ == Seq::<u8>::empty(),
    {
        EventStream { framer: Framer::new() }
    }

    /// Takes the next chunk of bytes and hands out, in order, what each
    /// unit that ends within it decodes to. A unit that cannot be decoded
    /// gives an error in its place and stops nothing: the units after it
    /// are decoded as if it had not been there.
    pub fn feed(&mut self, chunk: &[u8]) -> (outcomes: Vec<Result<PulseEvent, ControlError>>)
        ensures
            outcomes_view(outcomes@) == decoded_units(old(self)@ + chunk@),
            final(self)@ == pending(old(self)@ + chunk@),
    {
        let frames = self.framer.feed(chunk);
        let ghost all = frames_view(frames@);
        let mut outcomes: Vec<Result<PulseEvent, ControlError>> = Vec::new();
        assert(outcomes_view(outcomes@) =~= decoded_all(all.take(0)));
        for frame in it: frames
            invariant
                all == frames_view(it.seq()),
                outcomes_view(outcomes@) == decoded_all(all.take(it.index() as int)),
        {
            let outcome = decode_unit(frame);
            proof {
                let done = all.take(it.index() as int);
                let next = all.take(it.index() as int + 1);
                assert(frame@ == all[it.index() as int]);
                assert(next =~= done.push(frame@));
                assert(decoded_all(next) =~= decoded_all(done).push(decoded(frame@)));
                assert(outcomes_view(outcomes@.push(outcome)) =~= outcomes_view(outcomes@).push(
                    outcome_view(outcome),
                ));
            }
            outcomes.push(outcome);
        }
        assert(all.take(all.len() as int) =~= all);
        outcomes
    }
}

/// Cutting and decoding are indifferent to where the stream was split:
/// the outcomes for `head + tail` are those for `head`, and then those
/// for what was pending of `head` followed by `tail`.
pub proof fn lemma_chunking_invariance(head: Seq<u8>, tail: Seq<u8>)
    ensures
        decoded_units(head + tail) == decoded_units(head) + decoded_units(pending(head) + tail),
        pending(head + tail) == pending(pending(head) + tail),
{
    framer::lemma_split(head, tail);
    assert(decoded_units(head + tail) =~= decoded_units(head) + decoded_units(
        pending(head) + tail,
    ));
}

/// A stream of `n` whole units gives exactly `n` outcomes, the one at
/// each place being what the unit at that place decodes to, and leaves
/// nothing pending.
pub proof fn lemma_one_outcome_per_unit(parts: Seq<Seq<u8>>)
    requires
        forall|i: int| 0 <= i < parts.len() ==> framer::framed(#[trigger] parts[i]),
    ensures
        decoded_units(framer::joined(parts)).len() == parts.len(),
        forall|i: int|
            0 <= i < parts.len() ==> #[trigger] decoded_units(framer::joined(parts))[i] == decoded(
                parts[i],
            ),
        pending(framer::joined(parts)) == Seq::<u8>::empty(),
{
    framer::lemma_units_of_joined(parts);
}

/// Whether the sink at `i` is the first of `sinks` with the name `name`.
pub open spec fn is_first_named(sinks: Seq<SinkInfoView>, name: Seq<char>, i: int) -> bool {
    &&& 0 <= i < sinks.len()
    &&& sinks[i].name == name
    &&& forall|j: int| 0 <= j < i ==> (#[trigger] sinks[j]).name != name
}

/// Whether the sink at `i` is the last of `sinks` with the name `name`.
pub open spec fn is_last_named(sinks: Seq<SinkInfoView>, name: Seq<char>, i: int) -> bool {
    &&& 0 <= i < sinks.len()
    &&& sinks[i].name == name
    &&& forall|j: int| i < j < sinks.len() ==> (#[trigger] sinks[j]).name != name
}

/// Whether no sink of `sinks` has the name `name`.
pub open spec fn none_named(sinks: Seq<SinkInfoView>, name: Seq<char>) -> bool {
    forall|j: int| 0 <= j < sinks.len() ==> (#[trigger] sinks[j]).name != name
}

/// The index of the first sink with the name `name`, if there is one.
pub open spec fn first_named(sinks: Seq<SinkInfoView>, name: Seq<char>) -> Option<int> {
    if exists|i: int| is_first_named(sinks, name, i) {
        Some(choose|i: int| is_first_named(sinks, name, i))
    } else {
        None
    }
}

/// The sink that becomes the default when the sinks are cycled while the
/// sink named `current` is the default: the one after it in the list, and
/// the first one after the last. `None` where no sink has that name.
pub open spec fn cycle_target(sinks: Seq<SinkInfoView>, current: Seq<char>) -> Option<
    SinkInfoView,
> {
    match first_named(sinks, current) {
        Some(i) => Some(sinks[(i + 1) % (sinks.len() as int)]),
        None => None,
    }
}

/// There is at most one first sink of a name.
pub proof fn lemma_first_named_unique(sinks: Seq<SinkInfoView>, name: Seq<char>, i: int)
    requires
        is_first_named(sinks, name, i),
    ensures
        first_named(sinks, name) == Some(i),
{
    let k = choose|k: int| is_first_named(sinks, name, k);
    if k < i {
        assert(sinks[k].name != name);
    }
    if i < k {
        assert(sinks[i].name != name);
    }
}

/// Where no sink has the name, there is no first one.
pub proof fn lemma_none_named(sinks: Seq<SinkInfoView>, name: Seq<char>)
    requires
        none_named(sinks, name),
    ensures
        first_named(sinks, name) is None,
{
    if exists|i: int| is_first_named(sinks, name, i) {
        let k = choose|k: int| is_first_named(sinks, name, k);
        assert(sinks[k].name != name);
    }
}

/// Whether no two sinks have the same name.
pub open spec fn distinct_sink_names(sinks: Seq<SinkInfoView>) -> bool {
    forall|i: int, j: int|
        0 <= i < j < sinks.len() ==> (#[trigger] sinks[i]).name != (#[trigger] sinks[j]).name
}

/// The name of the default sink after the sinks were cycled `rounds`
/// times, starting with the sink named `start` as the default. `None`
/// once a cycling finds no sink of the default's name.
pub open spec fn default_after(sinks: Seq<SinkInfoView>, start: Seq<char>, rounds: nat) -> Option<
    Seq<char>,
>
    decreases rounds,
{
    if rounds == 0 {
        Some(start)
    } else {
        match default_after(sinks, start, (rounds - 1) as nat) {
            Some(name) => match cycle_target(sinks, name) {
                Some(sink) => Some(sink.name),
                None => None,
            },
            None => None,
        }
    }
}

/// Cycling moves the default from one sink to the next in the list, and
/// from the last to the first.
pub proof fn lemma_cycle_advances(sinks: Seq<SinkInfoView>, i: int)
    requires
        distinct_sink_names(sinks),
        0 <= i < sinks.len(),
    ensures
        cycle_target(sinks, sinks[i].name) == Some(sinks[(i + 1) % (sinks.len() as int)]),
{
    assert(is_first_named(sinks, sinks[i].name, i));
    lemma_first_named_unique(sinks, sinks[i].name, i);
}

/// Cycling `rounds` times moves the default `rounds` places along the
/// list, wrapping around at its end.
pub proof fn lemma_cycle_rounds(sinks: Seq<SinkInfoView>, i: int, rounds: nat)
    requires
        distinct_sink_names(sinks),
        0 <= i < sinks.len(),
    ensures
        0 <= (i + rounds) % (sinks.len() as int) < sinks.len(),
        default_after(sinks, sinks[i].name, rounds) == Some(
            sinks[(i + rounds) % (sinks.len() as int)].name,
        ),
    decreases rounds,
{
    let n = sinks.len() as int;
    lemma_mod_bound(i + rounds, n);
    if rounds == 0 {
        lemma_small_mod(i as nat, n as nat);
    } else {
        let before = (i + rounds - 1) % n;
        lemma_cycle_rounds(sinks, i, (rounds - 1) as nat);
        lemma_cycle_advances(sinks, before);
        lemma_add_mod_noop_right(1, i + rounds - 1, n);
        assert((before + 1) % n == (i + rounds) % n);
    }
}

/// Cycling as many times as there are sinks brings the default back to
/// where it was.
pub proof fn lemma_cycle_returns(sinks: Seq<SinkInfoView>, i: int)
    requires
        distinct_sink_names(sinks),
        0 <= i < sinks.len(),
    ensures
        default_after(sinks, sinks[i].name, sinks.len()) == Some(sinks[i].name),
{
    let n = sinks.len() as int;
    lemma_cycle_rounds(sinks, i, sinks.len());
    lemma_mod_add_multiples_vanish(i, n);
    lemma_small_mod(i as nat, n as nat);
    assert((i + n) % n == i);
}

/// The command that makes the sink `name` the default.
pub open spec fn set_default_sink_text(name: Seq<char>) -> Seq<char> {
    "set-default-sink "@ + name
}

/// The command that changes the volume of the default sink by `step`
/// percent of the full volume, up where `sign` is a plus and down where it
/// is a minus.
pub open spec fn volume_step_text(sign: char, step: u8) -> Seq<char> {
    "set-sink-volume @DEFAULT_SINK@ "@ + seq![sign] + decimal_text(step as nat) + "%"@
}

/// The command that raises the volume of the default sink by `step`
/// percent.
pub open spec fn volume_up_text(step: u8) -> Seq<char> {
    volume_step_text('+', step)
}

/// The command that lowers the volume of the default sink by `step`
/// percent: the one that raises it, with the other sign.
pub open spec fn volume_down_text(step: u8) -> Seq<char> {
    volume_step_text('-', step)
}

/// The audio server's control interface under one client name: the
/// commands to give it, and what to make of its answers. Running the
/// commands is left to the caller.
pub struct Pulseaudio {
    client_name: String,
}

impl Pulseaudio {
    /// The name under which this client shows at the server.
    pub closed spec fn name(&self) -> Seq<char> {
        self.client_name@
    }

    pub fn new(client_name: &str) -> (pulse: Self)
        ensures
            pulse.name() == client_name@,
    {
        Pulseaudio { client_name: client_name.to_owned() }
    }

    pub fn client_name(&self) -> (name: &str)
        ensures
            name@ == self.name(),
    {
        self.client_name.as_str()
    }

    /// A decoder for the notifications of one subscription, at the start
    /// of its stream.
    pub fn subscribe(&self) -> (stream: EventStream)
        ensures
            stream@ == Seq::<u8>::empty(),
    {
        EventStream::new()
    }

    /// What came of a command that gives no answer: nothing where the
    /// server accepted it, else what the server wrote, as the error.
    pub fn command_outcome(&self, success: bool, stdout: Vec<u8>) -> (outcome: Result<
        (),
        ControlError,
    >)
        ensures
            match outcome {
                Ok(_) => success,
                Err(e) => !success && e@ == (if valid_utf8(stdout@) {
                    ControlErrorView::PulseError(decode_utf8(stdout@))
                } else {
                    ControlErrorView::Utf8Error
                }),
            },
    {
        if success {
            Ok(())
        } else {
            match utf8_string(stdout) {
                Ok(text) => Err(ControlError::PulseError(text)),
                Err(e) => Err(ControlError::from(e)),
            }
        }
    }

    /// The text of an answer of the server.
    pub fn output_text(&self, stdout: Vec<u8>) -> (text: Result<String, ControlError>)
        ensures
            match text {
                Ok(text) => valid_utf8(stdout@) && text@ == decode_utf8(stdout@),
                Err(e) => !valid_utf8(stdout@) && e@ == ControlErrorView::Utf8Error,
            },
    {
        match utf8_string(stdout) {
            Ok(text) => Ok(text),
            Err(e) => Err(ControlError::from(e)),
        }
    }

    /// The command that makes `sink` the default sink.
    pub fn set_default_sink(&self, sink: &SinkInfo) -> (command: String)
        ensures
            command@ == set_default_sink_text(sink@.name),
    {
        let mut command = String::from_str("set-default-sink ");
        command.append(sink.name.as_str());
        command
    }

    /// The command that raises the volume of the default sink by `step`
    /// percent.
    pub fn volume_up(&self, step: u8) -> (command: String)
        ensures
            command@ == volume_up_text(step),
    {
        let digits = decimal(step as u64);
        let mut command = String::from_str("set-sink-volume @DEFAULT_SINK@ ");
        command.append("+");
        command.append(digits.as_str());
        command.append("%");
        proof {
            reveal_strlit("+");
            assert("+"@ =~= seq!['+']);
        }
        command
    }

    /// The command that lowers the volume of the default sink by `step`
    /// percent.
    pub fn volume_down(&self, step: u8) -> (command: String)
        ensures
            command@ == volume_down_text(step),
    {
        let digits = decimal(step as u64);
        let mut command = String::from_str("set-sink-volume @DEFAULT_SINK@ ");
        command.append("-");
        command.append(digits.as_str());
        command.append("%");
        proof {
            reveal_strlit("-");
            assert("-"@ =~= seq!['-']);
        }
        command
    }

    /// The command that mutes the default sink if it sounds, and lets it
    /// sound if it is muted.
    pub fn toggle_mute(&self) -> (command: String)
        ensures
            command@ == "set-sink-mute @DEFAULT_SINK@ toggle"@,
    {
        String::from_str("set-sink-mute @DEFAULT_SINK@ toggle")
    }

    /// The first of `sinks` with the name `name`.
    pub fn find_sink_by_name<'a>(&self, sinks: &'a Vec<SinkInfo>, name: &str) -> (found: Option<
        &'a SinkInfo,
    >)
        ensures
            match found {
                Some(sink) => first_named(sinks_view(sinks@), name@) matches Some(i) && *sink
                    == sinks@[i],
                None => none_named(sinks_view(sinks@), name@),
            },
    {
        let ghost all = sinks_view(sinks@);
        let mut i: usize = 0;
        while i < sinks.len()
            invariant
                i <= sinks.len(),
                all == sinks_view(sinks@),
                forall|j: int| 0 <= j < i ==> (#[trigger] all[j]).name != name@,
            decreases sinks.len() - i,
        {
            if text_eq(sinks[i].name.as_str(), name) {
                proof {
                    assert(all[i as int] == sinks@[i as int]@);
                    lemma_first_named_unique(all, name@, i as int);
                }
                return Some(&sinks[i]);
            }
            proof {
                assert(all[i as int] == sinks@[i as int]@);
            }
            i = i + 1;
        }
        None
    }

    /// The default sink: the last of `sinks` that has the name which the
    /// server gives as the default's.
    pub fn get_default_sink<'a>(&self, sinks: &'a Vec<SinkInfo>, default_sink_name: &str) -> (found:
        Result<&'a SinkInfo, ControlError>)
        ensures
            match found {
                Ok(sink) => exists|i: int|
                    is_last_named(sinks_view(sinks@), default_sink_name@, i) && *sink == sinks@[i],
                Err(e) => none_named(sinks_view(sinks@), default_sink_name@) && e@
                    == ControlErrorView::PulseError("could not get default sink"@),
            },
    {
        let ghost all = sinks_view(sinks@);
        let mut i: usize = sinks.len();
        while i > 0
            invariant
                i <= sinks.len(),
                all == sinks_view(sinks@),
                forall|j: int| i <= j < sinks.len() ==> (#[trigger] all[j]).name
                    != default_sink_name@,
            decreases i,
        {
            i = i - 1;
            proof {
                assert(all[i as int] == sinks@[i as int]@);
            }
            if text_eq(sinks[i].name.as_str(), default_sink_name) {
                assert(is_last_named(all, default_sink_name@, i as int));
                return Ok(&sinks[i]);
            }
        }
        Err(ControlError::PulseError(String::from_str("could not get default sink")))
    }

    /// The volume of the default sink: that of its front left channel.
    pub fn get_default_volume(&self, default_sink: &SinkInfo) -> (volume: Result<
        Volume,
        ControlError,
    >)
        ensures
            match volume {
                Ok(volume) => default_sink@.volume.contains_key("front-left"@) && volume@
                    == default_sink@.volume["front-left"@],
                Err(e) => !default_sink@.volume.contains_key("front-left"@) && e@
                    == ControlErrorView::PulseError("channel does not exist"@),
            },
    {
        match default_sink.volume.get("front-left") {
            Some(volume) => Ok(volume.clone()),
            None => Err(ControlError::PulseError(String::from_str("channel does not exist"))),
        }
    }

    /// The sink to make the default when the sinks are cycled: the one
    /// after the first that has the default's name, and the first of all
    /// after the last.
    pub fn cycle_sinks<'a>(&self, sinks: &'a Vec<SinkInfo>, default_sink_name: &str) -> (next:
        Result<&'a SinkInfo, ControlError>)
        ensures
            match next {
                Ok(sink) => cycle_target(sinks_view(sinks@), default_sink_name@) == Some(sink@),
                Err(e) => cycle_target(sinks_view(sinks@), default_sink_name@) is None && e@
                    == ControlErrorView::PulseError("Couldn't cycle sinks"@),
            },
    {
        let ghost all = sinks_view(sinks@);
        let count = sinks.len();
        let mut i: usize = 0;
        while i < count
            invariant
                i <= count,
                count == sinks.len(),
                all == sinks_view(sinks@),
                forall|j: int| 0 <= j < i ==> (#[trigger] all[j]).name != default_sink_name@,
            decreases count - i,
        {
            proof {
                assert(all[i as int] == sinks@[i as int]@);
            }
            if text_eq(sinks[i].name.as_str(), default_sink_name) {
                let next = if i + 1 == count {
                    0
                } else {
                    i + 1
                };
                proof {
                    lemma_first_named_unique(all, default_sink_name@, i as int);
                    assert(next as int == (i as int + 1) % (count as int)) by {
                        if i + 1 == count {
                            lemma_mod_self_0(count as int);
                        } else {
                            lemma_small_mod((i + 1) as nat, count as nat);
                        }
                    }
                    assert(all[next as int] == sinks@[next as int]@);
                }
                return Ok(&sinks[next]);
            }
            i = i + 1;
        }
        proof {
            lemma_none_named(all, default_sink_name@);
        }
        Err(ControlError::PulseError(String::from_str("Couldn't cycle sinks")))
    }
}

} // verus!
