//! The entity descriptors that the hub discovers: switches and selectors,
//! with the fields they share, and the JSON document of each.

use crate::json::{array_json, flag, flag_json, literal_array, push_member, string_literal};
use crate::text::{clone_texts, texts};
use vstd::prelude::*;
use vstd::string::*;

verus! {

/// What a descriptor must offer to be announced to the hub.
pub trait Component {
    /// The capability kind, as it stands in the discovery topic.
    spec fn kind(&self) -> Seq<char>;

    /// The stable identifier of the entity.
    spec fn id(&self) -> Seq<char>;

    /// The descriptor document.
    spec fn json(&self) -> Seq<char>;

    fn component_str(&self) -> (kind: &str)
        ensures
            kind@ == self.kind(),
    ;

    fn object_id(&self) -> (id: &str)
        ensures
            id@ == self.id(),
    ;

    fn to_json(&self) -> (json: String)
        ensures
            json@ == self.json(),
    ;
}

/// Where and how a bridge reports that it can be reached.
pub struct Availability {
    pub payload_available: String,
    pub payload_not_available: String,
    pub topic: String,
}

pub struct AvailabilityView {
    pub payload_available: Seq<char>,
    pub payload_not_available: Seq<char>,
    pub topic: Seq<char>,
}

impl View for Availability {
    type V = AvailabilityView;

    open spec fn view(&self) -> AvailabilityView {
        AvailabilityView {
            payload_available: self.payload_available@,
            payload_not_available: self.payload_not_available@,
            topic: self.topic@,
        }
    }
}

impl Clone for Availability {
    fn clone(&self) -> (copy: Self)
        ensures
            copy == *self,
    {
        Availability {
            payload_available: self.payload_available.clone(),
            payload_not_available: self.payload_not_available.clone(),
            topic: self.topic.clone(),
        }
    }
}

/// The availability block of a descriptor document.
pub open spec fn availability_json(a: AvailabilityView) -> Seq<char> {
    "{\"payload_available\":"@ + string_literal(a.payload_available)
        + ",\"payload_not_available\":"@ + string_literal(a.payload_not_available)
        + ",\"topic\":"@ + string_literal(a.topic) + "}"@
}

impl Availability {
    /// Writes the availability block.
    pub fn to_json(&self) -> (json: String)
        ensures
            json@ == availability_json(self@),
    {
        let mut json = String::new();
        push_member(&mut json, "{\"payload_available\":", self.payload_available.as_str());
        push_member(&mut json, ",\"payload_not_available\":", self.payload_not_available.as_str());
        push_member(&mut json, ",\"topic\":", self.topic.as_str());
        json.append("}");
        assert(json@ =~= availability_json(self@));
        json
    }
}

/// The device under which the hub groups the entities of this bridge.
pub struct Device {
    name: String,
    identifiers: Vec<String>,
}

pub struct DeviceView {
    pub name: Seq<char>,
    pub identifiers: Seq<Seq<char>>,
}

impl View for Device {
    type V = DeviceView;

    closed spec fn view(&self) -> DeviceView {
        DeviceView { name: self.name@, identifiers: texts(self.identifiers@) }
    }
}

impl Clone for Device {
    fn clone(&self) -> (copy: Self)
        ensures
            copy@ == self@,
    {
        Device { name: self.name.clone(), identifiers: clone_texts(&self.identifiers) }
    }
}

impl Device {
    pub fn new(name: String, identifiers: Vec<String>) -> (device: Self)
        ensures
            device@ == (DeviceView { name: name@, identifiers: texts(identifiers@) }),
    {
        Device { name, identifiers }
    }

    pub fn name(&self) -> (name: &str)
        ensures
            name@ == self@.name,
    {
        self.name.as_str()
    }

    pub fn identifiers(&self) -> (identifiers: &Vec<String>)
        ensures
            texts(identifiers@) == self@.identifiers,
    {
        &self.identifiers
    }
}

/// The device block of a descriptor document.
pub open spec fn device_json(d: DeviceView) -> Seq<char> {
    "{\"name\":"@ + string_literal(d.name) + ",\"identifiers\":"@ + array_json(d.identifiers)
        + "}"@
}

impl Device {
    /// Writes the device block.
    pub fn to_json(&self) -> (json: String)
        ensures
            json@ == device_json(self@),
    {
        let identifiers = literal_array(&self.identifiers);
        let mut json = String::new();
        push_member(&mut json, "{\"name\":", self.name.as_str());
        json.append(",\"identifiers\":");
        json.append(identifiers.as_str());
        json.append("}");
        assert(json@ =~= device_json(self@));
        json
    }
}

/// The fields that every descriptor carries.
pub struct ComponentCommon {
    pub name: String,
    pub unique_id: String,
    pub device: Device,
    pub availability: Availability,
}

pub struct ComponentCommonView {
    pub name: Seq<char>,
    pub unique_id: Seq<char>,
    pub device: DeviceView,
    pub availability: AvailabilityView,
}

impl View for ComponentCommon {
    type V = ComponentCommonView;

    open spec fn view(&self) -> ComponentCommonView {
        ComponentCommonView {
            name: self.name@,
            unique_id: self.unique_id@,
            device: self.device@,
            availability: self.availability@,
        }
    }
}

impl Clone for ComponentCommon {
    fn clone(&self) -> (copy: Self)
        ensures
            copy@ == self@,
    {
        ComponentCommon {
            name: self.name.clone(),
            unique_id: self.unique_id.clone(),
            device: self.device.clone(),
            availability: self.availability.clone(),
        }
    }
}

/// The shared fields as members of a descriptor document, each with the
/// comma that precedes it.
pub open spec fn common_members(c: ComponentCommonView) -> Seq<char> {
    ",\"name\":"@ + string_literal(c.name) + ",\"unique_id\":"@ + string_literal(c.unique_id)
        + ",\"device\":"@ + device_json(c.device) + ",\"availability\":"@ + availability_json(
        c.availability,
    )
}

impl ComponentCommon {
    /// Writes the shared fields as members of a descriptor document.
    pub fn members_json(&self) -> (json: String)
        ensures
            json@ == common_members(self@),
    {
        let device = self.device.to_json();
        let availability = self.availability.to_json();
        let mut json = String::new();
        push_member(&mut json, ",\"name\":", self.name.as_str());
        push_member(&mut json, ",\"unique_id\":", self.unique_id.as_str());
        json.append(",\"device\":");
        json.append(device.as_str());
        json.append(",\"availability\":");
        json.append(availability.as_str());
        assert(json@ =~= common_members(self@));
        json
    }
}

/// A descriptor of the switch kind: two commands and the two states they
/// lead to.
pub struct Switch {
    pub command_topic: String,
    pub state_topic: String,
    pub common: ComponentCommon,
    pub value_template: String,
    pub json_attributes_topic: String,
    pub json_attributes_template: String,
    pub payload_on: String,
    pub payload_off: String,
    pub state_on: String,
    pub state_off: String,
    pub optimistic: bool,
}

pub struct SwitchView {
    pub command_topic: Seq<char>,
    pub state_topic: Seq<char>,
    pub common: ComponentCommonView,
    pub value_template: Seq<char>,
    pub json_attributes_topic: Seq<char>,
    pub json_attributes_template: Seq<char>,
    pub payload_on: Seq<char>,
    pub payload_off: Seq<char>,
    pub state_on: Seq<char>,
    pub state_off: Seq<char>,
    pub optimistic: bool,
}

impl View for Switch {
    type V = SwitchView;

    open spec fn view(&self) -> SwitchView {
        SwitchView {
            command_topic: self.command_topic@,
            state_topic: self.state_topic@,
            common: self.common@,
            value_template: self.value_template@,
            json_attributes_topic: self.json_attributes_topic@,
            json_attributes_template: self.json_attributes_template@,
            payload_on: self.payload_on@,
            payload_off: self.payload_off@,
            state_on: self.state_on@,
            state_off: self.state_off@,
            optimistic: self.optimistic,
        }
    }
}

impl Clone for Switch {
    fn clone(&self) -> (copy: Self)
        ensures
            copy@ == self@,
    {
        Switch {
            command_topic: self.command_topic.clone(),
            state_topic: self.state_topic.clone(),
            common: self.common.clone(),
            value_template: self.value_template.clone(),
            json_attributes_topic: self.json_attributes_topic.clone(),
            json_attributes_template: self.json_attributes_template.clone(),
            payload_on: self.payload_on.clone(),
            payload_off: self.payload_off.clone(),
            state_on: self.state_on.clone(),
            state_off: self.state_off.clone(),
            optimistic: self.optimistic,
        }
    }
}

/// The descriptor document of a switch.
pub open spec fn switch_json(s: SwitchView) -> Seq<char> {
    "{\"command_topic\":"@ + string_literal(s.command_topic) + ",\"state_topic\":"@
        + string_literal(s.state_topic) + common_members(s.common) + ",\"value_template\":"@
        + string_literal(s.value_template) + ",\"json_attributes_topic\":"@ + string_literal(
        s.json_attributes_topic,
    ) + ",\"json_attributes_template\":"@ + string_literal(s.json_attributes_template)
        + ",\"payload_on\":"@ + string_literal(s.payload_on) + ",\"payload_off\":"@
        + string_literal(s.payload_off) + ",\"state_on\":"@ + string_literal(s.state_on)
        + ",\"state_off\":"@ + string_literal(s.state_off) + ",\"optimistic\":"@ + flag_json(
        s.optimistic,
    ) + "}"@
}

impl Component for Switch {
    open spec fn kind(&self) -> Seq<char> {
        "switch"@
    }

    open spec fn id(&self) -> Seq<char> {
        self@.common.unique_id
    }

    open spec fn json(&self) -> Seq<char> {
        switch_json(self@)
    }

    fn component_str(&self) -> (kind: &str) {
        "switch"
    }

    fn object_id(&self) -> (id: &str) {
        self.common.unique_id.as_str()
    }

    fn to_json(&self) -> (json: String) {
        let common = self.common.members_json();
        let mut json = String::new();
        push_member(&mut json, "{\"command_topic\":", self.command_topic.as_str());
        push_member(&mut json, ",\"state_topic\":", self.state_topic.as_str());
        json.append(common.as_str());
        push_member(&mut json, ",\"value_template\":", self.value_template.as_str());
        push_member(&mut json, ",\"json_attributes_topic\":", self.json_attributes_topic.as_str());
        push_member(
            &mut json,
            ",\"json_attributes_template\":",
            self.json_attributes_template.as_str(),
        );
        push_member(&mut json, ",\"payload_on\":", self.payload_on.as_str());
        push_member(&mut json, ",\"payload_off\":", self.payload_off.as_str());
        push_member(&mut json, ",\"state_on\":", self.state_on.as_str());
        push_member(&mut json, ",\"state_off\":", self.state_off.as_str());
        json.append(",\"optimistic\":");
        json.append(flag(self.optimistic));
        json.append("}");
        assert(json@ =~= switch_json(self@));
        json
    }
}

/// A descriptor of the selector kind: one of a list of options.
pub struct Select {
    pub command_topic: String,
    pub state_topic: String,
    pub common: ComponentCommon,
    pub options: Vec<String>,
    pub value_template: String,
    pub json_attributes_topic: String,
    pub json_attributes_template: String,
}

pub struct SelectView {
    pub command_topic: Seq<char>,
    pub state_topic: Seq<char>,
    pub common: ComponentCommonView,
    pub options: Seq<Seq<char>>,
    pub value_template: Seq<char>,
    pub json_attributes_topic: Seq<char>,
    pub json_attributes_template: Seq<char>,
}

impl View for Select {
    type V = SelectView;

    open spec fn view(&self) -> SelectView {
        SelectView {
            command_topic: self.command_topic@,
            state_topic: self.state_topic@,
            common: self.common@,
            options: texts(self.options@),
            value_template: self.value_template@,
            json_attributes_topic: self.json_attributes_topic@,
            json_attributes_template: self.json_attributes_template@,
        }
    }
}

impl Clone for Select {
    fn clone(&self) -> (copy: Self)
        ensures
            copy@ == self@,
    {
        Select {
            command_topic: self.command_topic.clone(),
            state_topic: self.state_topic.clone(),
            common: self.common.clone(),
            options: clone_texts(&self.options),
            value_template: self.value_template.clone(),
            json_attributes_topic: self.json_attributes_topic.clone(),
            json_attributes_template: self.json_attributes_template.clone(),
        }
    }
}

/// The descriptor document of a selector.
pub open spec fn select_json(s: SelectView) -> Seq<char> {
    "{\"command_topic\":"@ + string_literal(s.command_topic) + ",\"state_topic\":"@
        + string_literal(s.state_topic) + common_members(s.common) + ",\"options\":"@
        + array_json(s.options) + ",\"value_template\":"@ + string_literal(s.value_template)
        + ",\"json_attributes_topic\":"@ + string_literal(s.json_attributes_topic)
        + ",\"json_attributes_template\":"@ + string_literal(s.json_attributes_template) + "}"@
}

impl Component for Select {
    open spec fn kind(&self) -> Seq<char> {
        "select"@
    }

    open spec fn id(&self) -> Seq<char> {
        self@.common.unique_id
    }

    open spec fn json(&self) -> Seq<char> {
        select_json(self@)
    }

    fn component_str(&self) -> (kind: &str) {
        "select"
    }

    fn object_id(&self) -> (id: &str) {
        self.common.unique_id.as_str()
    }

    fn to_json(&self) -> (json: String) {
        let common = self.common.members_json();
        let options = literal_array(&self.options);
        let mut json = String::new();
        push_member(&mut json, "{\"command_topic\":", self.command_topic.as_str());
        push_member(&mut json, ",\"state_topic\":", self.state_topic.as_str());
        json.append(common.as_str());
        json.append(",\"options\":");
        json.append(options.as_str());
        push_member(&mut json, ",\"value_template\":", self.value_template.as_str());
        push_member(&mut json, ",\"json_attributes_topic\":", self.json_attributes_topic.as_str());
        push_member(
            &mut json,
            ",\"json_attributes_template\":",
            self.json_attributes_template.as_str(),
        );
        json.append("}");
        assert(json@ =~= select_json(self@));
        json
    }
}

} // verus!
