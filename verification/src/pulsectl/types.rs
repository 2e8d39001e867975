//! What the audio server reports: events, sinks and their volumes, and
//! the ways in which asking it can fail.

use crate::json::{comma_joined, flag, flag_json, join_with_commas, literal, push_member,
    string_literal};
use crate::text::{decimal, decimal_text, text_eq, texts};
use vstd::prelude::*;
use vstd::std_specs::convert::FromSpecImpl;
use vstd::string::*;

verus! {

/// What happened to the object of an event.
#[derive(Clone, Copy, Debug, PartialEq, Eq, Structural)]
pub enum EventType {
    Change,
    Remove,
    /// Anything that this bridge does not know by name.
    Unknown,
}

/// The kind of object that an event is about.
#[derive(Clone, Copy, Debug, PartialEq, Eq, Structural)]
pub enum EventTarget {
    Client,
    Sink,
    /// Anything that this bridge does not know by name.
    Unknown,
}

/// One notification of the audio server.
#[derive(Clone, Copy, Debug, PartialEq, Eq, Structural)]
pub struct PulseEvent {
    pub event_type: EventType,
    pub target: EventTarget,
}

/// The volume of one channel.
pub struct Volume {
    pub value: u32,
    pub value_percent: String,
    pub db: String,
}

pub struct VolumeView {
    pub value: u32,
    pub value_percent: Seq<char>,
    pub db: Seq<char>,
}

impl View for Volume {
    type V = VolumeView;

    open spec fn view(&self) -> VolumeView {
        VolumeView { value: self.value, value_percent: self.value_percent@, db: self.db@ }
    }
}

impl Clone for Volume {
    fn clone(&self) -> (copy: Self)
        ensures
            copy == *self,
    {
        Volume {
            value: self.value,
            value_percent: self.value_percent.clone(),
            db: self.db.clone(),
        }
    }
}

/// The JSON object of a volume.
pub open spec fn volume_json(volume: VolumeView) -> Seq<char> {
    "{\"value\":"@ + decimal_text(volume.value as nat) + ",\"value_percent\":"@ + string_literal(
        volume.value_percent,
    ) + ",\"db\":"@ + string_literal(volume.db) + "}"@
}

impl Volume {
    /// Writes the volume as a JSON object.
    pub fn to_json(&self) -> (json: String)
        ensures
            json@ == volume_json(self@),
    {
        let value = decimal(self.value as u64);
        let mut json = String::from_str("{\"value\":");
        json.append(value.as_str());
        push_member(&mut json, ",\"value_percent\":", self.value_percent.as_str());
        push_member(&mut json, ",\"db\":", self.db.as_str());
        json.append("}");
        json
    }
}

/// What the audio server says of itself.
pub struct ServerInfo {
    pub server_string: String,
    pub default_sink_name: String,
}

pub struct ServerInfoView {
    pub server_string: Seq<char>,
    pub default_sink_name: Seq<char>,
}

impl View for ServerInfo {
    type V = ServerInfoView;

    open spec fn view(&self) -> ServerInfoView {
        ServerInfoView {
            server_string: self.server_string@,
            default_sink_name: self.default_sink_name@,
        }
    }
}

/// The volumes of the channels of one sink, by the name of the channel.
/// No channel occurs twice.
pub struct ChannelVolumes {
    entries: Vec<(String, Volume)>,
}

/// Whether no two entries have the same name.
pub open spec fn distinct_names(entries: Seq<(String, Volume)>) -> bool {
    forall|i: int, j: int|
        0 <= i < entries.len() && 0 <= j < entries.len() && i != j ==> (#[trigger] entries[i]).0@
            != (#[trigger] entries[j]).0@
}

/// Whether some entry has the name `name`.
pub open spec fn has_name(entries: Seq<(String, Volume)>, name: Seq<char>) -> bool {
    exists|i: int| 0 <= i < entries.len() && (#[trigger] entries[i]).0@ == name
}

/// The index of an entry with the name `name`.
pub open spec fn index_of_name(entries: Seq<(String, Volume)>, name: Seq<char>) -> int {
    choose|i: int| 0 <= i < entries.len() && (#[trigger] entries[i]).0@ == name
}

/// The volumes of `entries` by their names.
pub open spec fn entries_map(entries: Seq<(String, Volume)>) -> Map<Seq<char>, VolumeView> {
    Map::new(
        |name: Seq<char>| has_name(entries, name),
        |name: Seq<char>| entries[index_of_name(entries, name)].1@,
    )
}

/// The names of `entries`, in order.
pub open spec fn entry_names(entries: Seq<(String, Volume)>) -> Seq<Seq<char>> {
    entries.map_values(|e: (String, Volume)| e.0@)
}

/// Putting a volume in the place of an entry of the same name sets the
/// volume under that name and leaves the names as they are.
proof fn lemma_replace_entry(before: Seq<(String, Volume)>, i: int, name: String, volume: Volume)
    requires
        distinct_names(before),
        0 <= i < before.len(),
        before[i].0@ == name@,
    ensures
        distinct_names(before.update(i, (name, volume))),
        entries_map(before.update(i, (name, volume))) == entries_map(before).insert(
            name@,
            volume@,
        ),
        entry_names(before.update(i, (name, volume))) == entry_names(before),
        entries_map(before).contains_key(name@),
{
    let after = before.update(i, (name, volume));
    assert forall|a: int, b: int|
        0 <= a < after.len() && 0 <= b < after.len() && a != b implies (#[trigger] after[a]).0@ != (
    #[trigger] after[b]).0@ by {
        assert(before[a].0@ != before[b].0@);
    }
    assert forall|key: Seq<char>| has_name(after, key) == (has_name(before, key) || key
        == name@) by {
        if has_name(after, key) {
            let k = index_of_name(after, key);
            assert(before[k].0@ == key);
        }
        if has_name(before, key) {
            let k = index_of_name(before, key);
            assert(after[k].0@ == key);
        }
        if key == name@ {
            assert(after[i].0@ == key);
        }
    }
    assert forall|key: Seq<char>| has_name(after, key) implies after[index_of_name(after, key)].1@
        == (if key == name@ {
        volume@
    } else {
        before[index_of_name(before, key)].1@
    }) by {
        let k = index_of_name(after, key);
        if key == name@ {
            assert(after[i].0@ == key);
            assert(k == i);
        } else {
            assert(before[k].0@ == key);
            assert(has_name(before, key));
            assert(index_of_name(before, key) == k);
        }
    }
    assert(entries_map(after) =~= entries_map(before).insert(name@, volume@));
    assert(entry_names(after) =~= entry_names(before));
    assert(has_name(before, name@));
}

/// Adding an entry under a new name sets the volume under that name and
/// puts the name after the others.
proof fn lemma_append_entry(before: Seq<(String, Volume)>, name: String, volume: Volume)
    requires
        distinct_names(before),
        forall|k: int| 0 <= k < before.len() ==> (#[trigger] before[k]).0@ != name@,
    ensures
        distinct_names(before.push((name, volume))),
        entries_map(before.push((name, volume))) == entries_map(before).insert(name@, volume@),
        entry_names(before.push((name, volume))) == entry_names(before).push(name@),
        !entries_map(before).contains_key(name@),
{
    let after = before.push((name, volume));
    assert forall|a: int, b: int|
        0 <= a < after.len() && 0 <= b < after.len() && a != b implies (#[trigger] after[a]).0@ != (
    #[trigger] after[b]).0@ by {
        if a < before.len() && b < before.len() {
            assert(before[a].0@ != before[b].0@);
        } else if a < before.len() {
            assert(before[a].0@ != name@);
        } else {
            assert(before[b].0@ != name@);
        }
    }
    assert forall|key: Seq<char>| has_name(after, key) == (has_name(before, key) || key
        == name@) by {
        if has_name(after, key) {
            let k = index_of_name(after, key);
            if k < before.len() {
                assert(before[k].0@ == key);
            }
        }
        if has_name(before, key) {
            let k = index_of_name(before, key);
            assert(after[k].0@ == key);
        }
        if key == name@ {
            assert(after[before.len() as int].0@ == key);
        }
    }
    assert forall|key: Seq<char>| has_name(after, key) implies after[index_of_name(after, key)].1@
        == (if key == name@ {
        volume@
    } else {
        before[index_of_name(before, key)].1@
    }) by {
        let k = index_of_name(after, key);
        if key == name@ {
            assert(after[before.len() as int].0@ == key);
            assert(k == before.len());
        } else {
            assert(before[k].0@ == key);
            assert(has_name(before, key));
            assert(index_of_name(before, key) == k);
        }
    }
    assert(entries_map(after) =~= entries_map(before).insert(name@, volume@));
    assert(entry_names(after) =~= entry_names(before).push(name@));
    if has_name(before, name@) {
        let k = index_of_name(before, name@);
        assert(before[k].0@ != name@);
    }
}

impl View for ChannelVolumes {
    type V = Map<Seq<char>, VolumeView>;

    closed spec fn view(&self) -> Map<Seq<char>, VolumeView> {
        entries_map(self.entries@)
    }
}

impl ChannelVolumes {
    /// No channel occurs twice.
    #[verifier::type_invariant]
    spec fn no_channel_twice(&self) -> bool {
        distinct_names(self.entries@)
    }

    /// The names of the channels, in the order in which they were first
    /// inserted.
    pub closed spec fn names(&self) -> Seq<Seq<char>> {
        entry_names(self.entries@)
    }

    /// No channels.
    pub fn new() -> (volumes: Self)
        ensures
            volumes@ == Map::<Seq<char>, VolumeView>::empty(),
            volumes.names() == Seq::<Seq<char>>::empty(),
    {
        let volumes = ChannelVolumes { entries: Vec::new() };
        assert(volumes@ =~= Map::<Seq<char>, VolumeView>::empty());
        assert(volumes.names() =~= Seq::<Seq<char>>::empty());
        volumes
    }

    /// How many channels there are.
    pub fn len(&self) -> (n: usize)
        ensures
            n == self.names().len(),
    {
        self.entries.len()
    }

    /// The name of the channel at `index`.
    pub fn name_at(&self, index: usize) -> (name: &str)
        requires
            index < self.names().len(),
        ensures
            name@ == self.names()[index as int],
            self@.contains_key(name@),
    {
        assert(has_name(self.entries@, self.entries@[index as int].0@));
        self.entries[index].0.as_str()
    }

    /// The volume of the channel at `index`.
    pub fn volume_at(&self, index: usize) -> (volume: &Volume)
        requires
            index < self.names().len(),
        ensures
            self@.contains_key(self.names()[index as int]),
            volume@ == self@[self.names()[index as int]],
    {
        proof {
            use_type_invariant(self);
            let name = self.entries@[index as int].0@;
            assert(has_name(self.entries@, name));
            assert(index_of_name(self.entries@, name) == index);
        }
        &self.entries[index].1
    }

    /// The volume of the channel `name`, if there is such a channel.
    pub fn get(&self, name: &str) -> (found: Option<&Volume>)
        ensures
            match found {
                Some(volume) => self@.contains_key(name@) && self@[name@] == volume@,
                None => !self@.contains_key(name@),
            },
    {
        proof {
            use_type_invariant(self);
        }
        let mut i: usize = 0;
        while i < self.entries.len()
            invariant
                i <= self.entries.len(),
                distinct_names(self.entries@),
                forall|k: int| 0 <= k < i ==> (#[trigger] self.entries@[k]).0@ != name@,
            decreases self.entries.len() - i,
        {
            if text_eq(self.entries[i].0.as_str(), name) {
                proof {
                    assert(has_name(self.entries@, name@));
                    assert(index_of_name(self.entries@, name@) == i);
                }
                return Some(&self.entries[i].1);
            }
            i = i + 1;
        }
        None
    }

    /// Sets the volume of the channel `name`, which is added if it is new.
    pub fn insert(&mut self, name: String, volume: Volume)
        ensures
            final(self)@ == old(self)@.insert(name@, volume@),
            old(self)@.contains_key(name@) ==> final(self).names() == old(self).names(),
            !old(self)@.contains_key(name@) ==> final(self).names() == old(self).names().push(
                name@,
            ),
    {
        proof {
            use_type_invariant(&*self);
        }
        let mut entries: Vec<(String, Volume)> = Vec::new();
        std::mem::swap(&mut self.entries, &mut entries);
        let ghost before = entries@;
        let mut i: usize = 0;
        while i < entries.len()
            invariant
                i <= entries.len(),
                entries@ == before,
                forall|k: int| 0 <= k < i ==> (#[trigger] before[k]).0@ != name@,
            ensures
                i < entries.len() ==> before[i as int].0@ == name@,
            decreases entries.len() - i,
        {
            if text_eq(entries[i].0.as_str(), name.as_str()) {
                break ;
            }
            i = i + 1;
        }
        if i < entries.len() {
            proof {
                lemma_replace_entry(before, i as int, name, volume);
            }
            entries.set(i, (name, volume));
        } else {
            proof {
                lemma_append_entry(before, name, volume);
            }
            entries.push((name, volume));
        }
        std::mem::swap(&mut self.entries, &mut entries);
    }
}

/// The member of the volumes' JSON object for the channel `name`.
pub open spec fn channel_member(name: Seq<char>, volume: VolumeView) -> Seq<char> {
    string_literal(name) + ":"@ + volume_json(volume)
}

/// The members of the volumes' JSON object, in the order of `names`.
pub open spec fn channel_members(names: Seq<Seq<char>>, volumes: Map<Seq<char>, VolumeView>) -> Seq<
    Seq<char>,
> {
    Seq::new(names.len(), |i: int| channel_member(names[i], volumes[names[i]]))
}

/// The JSON object that holds the volume of each channel under the
/// channel's name, the channels in the order of `names`.
pub open spec fn channels_json(names: Seq<Seq<char>>, volumes: Map<Seq<char>, VolumeView>) -> Seq<
    char,
> {
    "{"@ + comma_joined(channel_members(names, volumes)) + "}"@
}

impl ChannelVolumes {
    /// Writes the volumes as a JSON object, each channel under its name,
    /// in the order in which the channels were first inserted.
    pub fn to_json(&self) -> (json: String)
        ensures
            json@ == channels_json(self.names(), self@),
    {
        let ghost members = channel_members(self.names(), self@);
        let count = self.len();
        let mut parts: Vec<String> = Vec::new();
        let mut i: usize = 0;
        while i < count
            invariant
                i <= count,
                count == self.names().len(),
                members == channel_members(self.names(), self@),
                texts(parts@) == members.take(i as int),
            decreases count - i,
        {
            let mut part = literal(self.name_at(i));
            let volume = self.volume_at(i).to_json();
            part.append(":");
            part.append(volume.as_str());
            proof {
                assert(part@ == members[i as int]);
                assert(texts(parts@.push(part)) =~= texts(parts@).push(part@));
                assert(members.take(i as int + 1) =~= members.take(i as int).push(
                    members[i as int],
                ));
            }
            parts.push(part);
            i = i + 1;
        }
        assert(members.take(count as int) =~= members);
        let list = join_with_commas(&parts);
        let mut json = String::from_str("{");
        json.append(list.as_str());
        json.append("}");
        json
    }
}

impl Clone for ChannelVolumes {
    fn clone(&self) -> (copy: Self)
        ensures
            copy@ == self@,
            copy.names() == self.names(),
    {
        proof {
            use_type_invariant(self);
        }
        let mut entries: Vec<(String, Volume)> = Vec::new();
        let mut i: usize = 0;
        while i < self.entries.len()
            invariant
                i <= self.entries.len(),
                entries@ == self.entries@.take(i as int),
            decreases self.entries.len() - i,
        {
            entries.push((self.entries[i].0.clone(), self.entries[i].1.clone()));
            i = i + 1;
        }
        assert(self.entries@.take(self.entries.len() as int) =~= self.entries@);
        ChannelVolumes { entries }
    }
}

/// One output device of the audio server.
pub struct SinkInfo {
    pub index: u32,
    pub state: String,
    pub name: String,
    pub mute: bool,
    /// The names of the channels, separated by commas.
    pub channel_map: String,
    pub volume: ChannelVolumes,
}

pub struct SinkInfoView {
    pub index: u32,
    pub state: Seq<char>,
    pub name: Seq<char>,
    pub mute: bool,
    pub channel_map: Seq<char>,
    /// The names of the channels that have a volume, in their order.
    pub channels: Seq<Seq<char>>,
    pub volume: Map<Seq<char>, VolumeView>,
}

impl View for SinkInfo {
    type V = SinkInfoView;

    open spec fn view(&self) -> SinkInfoView {
        SinkInfoView {
            index: self.index,
            state: self.state@,
            name: self.name@,
            mute: self.mute,
            channel_map: self.channel_map@,
            channels: self.volume.names(),
            volume: self.volume@,
        }
    }
}

/// The JSON object of a sink.
pub open spec fn sink_json(sink: SinkInfoView) -> Seq<char> {
    "{\"index\":"@ + decimal_text(sink.index as nat) + ",\"state\":"@ + string_literal(sink.state)
        + ",\"name\":"@ + string_literal(sink.name) + ",\"mute\":"@ + flag_json(sink.mute)
        + ",\"channel_map\":"@ + string_literal(sink.channel_map) + ",\"volume\":"@
        + channels_json(sink.channels, sink.volume) + "}"@
}

impl SinkInfo {
    /// Writes the sink as a JSON object.
    pub fn to_json(&self) -> (json: String)
        ensures
            json@ == sink_json(self@),
    {
        let index = decimal(self.index as u64);
        let volume = self.volume.to_json();
        let mut json = String::from_str("{\"index\":");
        json.append(index.as_str());
        push_member(&mut json, ",\"state\":", self.state.as_str());
        push_member(&mut json, ",\"name\":", self.name.as_str());
        json.append(",\"mute\":");
        json.append(flag(self.mute));
        push_member(&mut json, ",\"channel_map\":", self.channel_map.as_str());
        json.append(",\"volume\":");
        json.append(volume.as_str());
        json.append("}");
        json
    }
}

impl Clone for SinkInfo {
    fn clone(&self) -> (copy: Self)
        ensures
            copy@ == self@,
    {
        SinkInfo {
            index: self.index,
            state: self.state.clone(),
            name: self.name.clone(),
            mute: self.mute,
            channel_map: self.channel_map.clone(),
            volume: self.volume.clone(),
        }
    }
}

/// The views of a list of sinks, in order.
pub open spec fn sinks_view(sinks: Seq<SinkInfo>) -> Seq<SinkInfoView> {
    sinks.map_values(|s: SinkInfo| s@)
}

/// The JSON array of the objects of `sinks`.
pub open spec fn sinks_json(sinks: Seq<SinkInfoView>) -> Seq<char> {
    "["@ + comma_joined(sinks.map_values(|s: SinkInfoView| sink_json(s))) + "]"@
}

/// Writes `sinks` as a JSON array.
pub fn sinks_to_json(sinks: &Vec<SinkInfo>) -> (json: String)
    ensures
        json@ == sinks_json(sinks_view(sinks@)),
{
    let ghost objects = sinks_view(sinks@).map_values(|s: SinkInfoView| sink_json(s));
    let mut parts: Vec<String> = Vec::new();
    let mut i: usize = 0;
    while i < sinks.len()
        invariant
            i <= sinks.len(),
            objects == sinks_view(sinks@).map_values(|s: SinkInfoView| sink_json(s)),
            texts(parts@) == objects.take(i as int),
        decreases sinks.len() - i,
    {
        let part = sinks[i].to_json();
        proof {
            assert(part@ == objects[i as int]);
            assert(texts(parts@.push(part)) =~= texts(parts@).push(part@));
            assert(objects.take(i as int + 1) =~= objects.take(i as int).push(objects[i as int]));
        }
        parts.push(part);
        i = i + 1;
    }
    assert(objects.take(sinks.len() as int) =~= objects);
    let list = join_with_commas(&parts);
    let mut json = String::from_str("[");
    json.append(list.as_str());
    json.append("]");
    json
}

/// How asking the audio server can fail.
#[derive(Debug)]
pub enum ControlError {
    /// Its answer is not the JSON that was expected.
    JsonError(serde_json::Error),
    /// It refused, or it has nothing that fits; the text says which.
    PulseError(String),
    /// Its answer is not UTF-8 text.
    Utf8Error(std::string::FromUtf8Error),
}

/// A [`ControlError`] without what only the outside holds: its kind and, where
/// it has one, its text.
pub enum ControlErrorView {
    JsonError,
    PulseError(Seq<char>),
    Utf8Error,
}

impl View for ControlError {
    type V = ControlErrorView;

    open spec fn view(&self) -> ControlErrorView {
        match self {
            ControlError::JsonError(_) => ControlErrorView::JsonError,
            ControlError::PulseError(text) => ControlErrorView::PulseError(text@),
            ControlError::Utf8Error(_) => ControlErrorView::Utf8Error,
        }
    }
}

impl From<std::string::FromUtf8Error> for ControlError {
    fn from(e: std::string::FromUtf8Error) -> (error: Self) {
        ControlError::Utf8Error(e)
    }
}

impl FromSpecImpl<std::string::FromUtf8Error> for ControlError {
    open spec fn obeys_from_spec() -> bool {
        true
    }

    open spec fn from_spec(e: std::string::FromUtf8Error) -> Self {
        ControlError::Utf8Error(e)
    }
}

impl From<serde_json::Error> for ControlError {
    fn from(e: serde_json::Error) -> (error: Self) {
        ControlError::JsonError(e)
    }
}

impl FromSpecImpl<serde_json::Error> for ControlError {
    open spec fn obeys_from_spec() -> bool {
        true
    }

    open spec fn from_spec(e: serde_json::Error) -> Self {
        ControlError::JsonError(e)
    }
}

} // verus!
