//! The window-manager bridge: the commands it takes from the hub, the
//! entities it announces, and what it reports of the workspaces.

use crate::broker::{publications, Publication, PublicationView, QoS};
use crate::config::{discovery_topic, Config, ConfigView};
use crate::homeassistant::{switch_json, ComponentCommonView, Switch, SwitchView};
use crate::json::{find_text, literal, members_model, object_members, parse_object,
    string_literal, text_member, JsonMember, MemberModel};
use crate::text::{text_eq, texts, utf8_text};
use vstd::prelude::*;
use vstd::string::*;
use vstd::utf8::{decode_utf8, valid_utf8};

verus! {

/// A command of the hub for the window manager. Each names the output it
/// is for.
pub enum SwayCommand {
    OutputPowerOn { output_name: String },
    OutputPowerOff { output_name: String },
    OutputEnable { output_name: String },
    OutputDisable { output_name: String },
}

pub enum SwayCommandView {
    OutputPowerOn { output_name: Seq<char> },
    OutputPowerOff { output_name: Seq<char> },
    OutputEnable { output_name: Seq<char> },
    OutputDisable { output_name: Seq<char> },
}

impl View for SwayCommand {
    type V = SwayCommandView;

    open spec fn view(&self) -> SwayCommandView {
        match self {
            SwayCommand::OutputPowerOn { output_name } => SwayCommandView::OutputPowerOn {
                output_name: output_name@,
            },
            SwayCommand::OutputPowerOff { output_name } => SwayCommandView::OutputPowerOff {
                output_name: output_name@,
            },
            SwayCommand::OutputEnable { output_name } => SwayCommandView::OutputEnable {
                output_name: output_name@,
            },
            SwayCommand::OutputDisable { output_name } => SwayCommandView::OutputDisable {
                output_name: output_name@,
            },
        }
    }
}

/// Why an inbound message leads to no action.
#[derive(Clone, Copy, Debug, PartialEq, Eq, Structural)]
pub enum Rejection {
    /// It came on another topic than the bridge's command topic.
    ForeignTopic,
    /// Its payload is not UTF-8 text.
    NotUtf8,
    /// Its text is not one JSON object.
    NotJson,
    /// The object names no known command, or lacks the command's target.
    NotACommand,
}

/// The command payload for `command`: a JSON object with the command's
/// name under `type` and its target under `output_name`.
pub open spec fn command_json(command: SwayCommandView) -> Seq<char> {
    match command {
        SwayCommandView::OutputPowerOn { output_name } => "{\"type\":\"OutputPowerOn\",\"output_name\":"@
            + string_literal(output_name) + "}"@,
        SwayCommandView::OutputPowerOff { output_name } => "{\"type\":\"OutputPowerOff\",\"output_name\":"@
            + string_literal(output_name) + "}"@,
        SwayCommandView::OutputEnable { output_name } => "{\"type\":\"OutputEnable\",\"output_name\":"@
            + string_literal(output_name) + "}"@,
        SwayCommandView::OutputDisable { output_name } => "{\"type\":\"OutputDisable\",\"output_name\":"@
            + string_literal(output_name) + "}"@,
    }
}

/// The window-manager command line that carries out `command`.
pub open spec fn command_action(command: SwayCommandView) -> Seq<char> {
    match command {
        SwayCommandView::OutputPowerOn { output_name } => "output "@ + output_name
            + " power on"@,
        SwayCommandView::OutputPowerOff { output_name } => "output "@ + output_name
            + " power off"@,
        SwayCommandView::OutputEnable { output_name } => "output "@ + output_name + " enable"@,
        SwayCommandView::OutputDisable { output_name } => "output "@ + output_name
            + " disable"@,
    }
}

/// The command that the members of a decoded payload spell, if any.
pub open spec fn command_of(members: Seq<MemberModel>) -> Option<SwayCommandView> {
    match (text_member(members, "type"@), text_member(members, "output_name"@)) {
        (Some(tag), Some(output_name)) => {
            if tag == "OutputPowerOn"@ {
                Some(SwayCommandView::OutputPowerOn { output_name })
            } else if tag == "OutputPowerOff"@ {
                Some(SwayCommandView::OutputPowerOff { output_name })
            } else if tag == "OutputEnable"@ {
                Some(SwayCommandView::OutputEnable { output_name })
            } else if tag == "OutputDisable"@ {
                Some(SwayCommandView::OutputDisable { output_name })
            } else {
                None
            }
        },
        _ => None,
    }
}

/// What a payload decodes to: bytes to text, text to a JSON object, the
/// object to a command. Each step can reject.
pub open spec fn command_of_payload(payload: Seq<u8>) -> Result<SwayCommandView, Rejection> {
    if !valid_utf8(payload) {
        Err(Rejection::NotUtf8)
    } else {
        match object_members(decode_utf8(payload)) {
            None => Err(Rejection::NotJson),
            Some(members) => match command_of(members) {
                None => Err(Rejection::NotACommand),
                Some(command) => Ok(command),
            },
        }
    }
}

/// The view of a decoding result.
pub open spec fn decoded_view(r: Result<SwayCommand, Rejection>) -> Result<
    SwayCommandView,
    Rejection,
> {
    match r {
        Ok(command) => Ok(command@),
        Err(rejection) => Err(rejection),
    }
}

impl SwayCommand {
    /// The output that the command is for.
    pub fn output_name(&self) -> (name: &str)
        ensures
            name@ == match self@ {
                SwayCommandView::OutputPowerOn { output_name } => output_name,
                SwayCommandView::OutputPowerOff { output_name } => output_name,
                SwayCommandView::OutputEnable { output_name } => output_name,
                SwayCommandView::OutputDisable { output_name } => output_name,
            },
    {
        match self {
            SwayCommand::OutputPowerOn { output_name } => output_name.as_str(),
            SwayCommand::OutputPowerOff { output_name } => output_name.as_str(),
            SwayCommand::OutputEnable { output_name } => output_name.as_str(),
            SwayCommand::OutputDisable { output_name } => output_name.as_str(),
        }
    }

    /// Writes the payload with which the hub sends this command.
    pub fn to_json(&self) -> (json: String)
        ensures
            json@ == command_json(self@),
    {
        let head = match self {
            SwayCommand::OutputPowerOn { .. } => "{\"type\":\"OutputPowerOn\",\"output_name\":",
            SwayCommand::OutputPowerOff { .. } => "{\"type\":\"OutputPowerOff\",\"output_name\":",
            SwayCommand::OutputEnable { .. } => "{\"type\":\"OutputEnable\",\"output_name\":",
            SwayCommand::OutputDisable { .. } => "{\"type\":\"OutputDisable\",\"output_name\":",
        };
        let mut json = String::from_str(head);
        let target = literal(self.output_name());
        json.append(target.as_str());
        json.append("}");
        json
    }

    /// Writes the window-manager command line that carries the command out.
    pub fn action(&self) -> (line: String)
        ensures
            line@ == command_action(self@),
    {
        let tail = match self {
            SwayCommand::OutputPowerOn { .. } => " power on",
            SwayCommand::OutputPowerOff { .. } => " power off",
            SwayCommand::OutputEnable { .. } => " enable",
            SwayCommand::OutputDisable { .. } => " disable",
        };
        let mut line = String::from_str("output ");
        line.append(self.output_name());
        line.append(tail);
        line
    }

    /// Reads a command from the members of a decoded payload.
    pub fn from_members(members: &Vec<JsonMember>) -> (r: Option<SwayCommand>)
        ensures
            match r {
                Some(command) => command_of(members_model(members@)) == Some(command@),
                None => command_of(members_model(members@)) is None,
            },
    {
        let tag = match find_text(members, "type") {
            Some(tag) => tag,
            None => { return None; },
        };
        let output_name = match find_text(members, "output_name") {
            Some(name) => name.to_owned(),
            None => { return None; },
        };
        if text_eq(tag, "OutputPowerOn") {
            Some(SwayCommand::OutputPowerOn { output_name })
        } else if text_eq(tag, "OutputPowerOff") {
            Some(SwayCommand::OutputPowerOff { output_name })
        } else if text_eq(tag, "OutputEnable") {
            Some(SwayCommand::OutputEnable { output_name })
        } else if text_eq(tag, "OutputDisable") {
            Some(SwayCommand::OutputDisable { output_name })
        } else {
            None
        }
    }
}

/// Decodes the payload of an inbound message.
pub fn decode_command(payload: &[u8]) -> (r: Result<SwayCommand, Rejection>)
    ensures
        decoded_view(r) == command_of_payload(payload@),
{
    let text = match utf8_text(payload) {
        Some(text) => text,
        None => { return Err(Rejection::NotUtf8); },
    };
    let members = match parse_object(text) {
        Ok(members) => members,
        Err(_) => { return Err(Rejection::NotJson); },
    };
    match SwayCommand::from_members(&members) {
        Some(command) => Ok(command),
        None => Err(Rejection::NotACommand),
    }
}

/// What the bridge does about one inbound message.
pub enum Dispatch {
    /// Run this command line in the window manager.
    Run(String),
    /// Do nothing, for this reason.
    Rejected(Rejection),
}

pub enum DispatchView {
    Run(Seq<char>),
    Rejected(Rejection),
}

impl View for Dispatch {
    type V = DispatchView;

    open spec fn view(&self) -> DispatchView {
        match self {
            Dispatch::Run(line) => DispatchView::Run(line@),
            Dispatch::Rejected(rejection) => DispatchView::Rejected(*rejection),
        }
    }
}

/// What follows from a message with `payload` that arrived on `topic`, for
/// a bridge that takes its commands on `command_topic`. A message on
/// another topic is rejected; so is a payload that decodes to no command.
/// A command leads to exactly one action.
pub open spec fn dispatch_of(command_topic: Seq<char>, topic: Seq<char>, payload: Seq<u8>)
    -> DispatchView {
    if topic != command_topic {
        DispatchView::Rejected(Rejection::ForeignTopic)
    } else {
        match command_of_payload(payload) {
            Ok(command) => DispatchView::Run(command_action(command)),
            Err(rejection) => DispatchView::Rejected(rejection),
        }
    }
}

/// Decides what to do about one inbound message. The decision rests on
/// this message alone: nothing is kept from one message to the next.
pub fn dispatch(config: &Config, topic: &str, payload: &[u8]) -> (decision: Dispatch)
    ensures
        decision@ == dispatch_of(config@.sway.command_topic, topic@, payload@),
{
    if !text_eq(topic, config.sway.command_topic.as_str()) {
        return Dispatch::Rejected(Rejection::ForeignTopic);
    }
    match decode_command(payload) {
        Ok(command) => Dispatch::Run(command.action()),
        Err(rejection) => Dispatch::Rejected(rejection),
    }
}

/// An inbound message as the broker delivers it.
pub struct Inbound {
    pub topic: Seq<char>,
    pub payload: Seq<u8>,
}

/// The command lines that a bridge runs for `messages`, in the order in
/// which the broker delivered them.
pub open spec fn invocations(command_topic: Seq<char>, messages: Seq<Inbound>) -> Seq<Seq<char>>
    decreases messages.len(),
{
    if messages.len() == 0 {
        Seq::empty()
    } else {
        let before = invocations(command_topic, messages.drop_last());
        match dispatch_of(command_topic, messages.last().topic, messages.last().payload) {
            DispatchView::Run(line) => before.push(line),
            DispatchView::Rejected(_) => before,
        }
    }
}

/// What is run for two runs of messages, one after the other, is what is
/// run for the first and then what is run for the second.
pub proof fn lemma_invocations_concat(
    command_topic: Seq<char>,
    first: Seq<Inbound>,
    second: Seq<Inbound>,
)
    ensures
        invocations(command_topic, first + second) == invocations(command_topic, first)
            + invocations(command_topic, second),
    decreases second.len(),
{
    if second.len() == 0 {
        assert(first + second =~= first);
        assert(invocations(command_topic, first) + invocations(command_topic, second)
            =~= invocations(command_topic, first));
    } else {
        lemma_invocations_concat(command_topic, first, second.drop_last());
        assert((first + second).drop_last() =~= first + second.drop_last());
        assert((first + second).last() == second.last());
        let before = invocations(command_topic, first) + invocations(
            command_topic,
            second.drop_last(),
        );
        match dispatch_of(command_topic, second.last().topic, second.last().payload) {
            DispatchView::Run(line) => {
                assert(before.push(line) =~= invocations(command_topic, first) + invocations(
                    command_topic,
                    second.drop_last(),
                ).push(line));
            },
            DispatchView::Rejected(_) => {},
        }
    }
}

/// A message that is rejected leads to no action and leaves the handling
/// of every other message as it is: with the message or without it, the
/// same command lines are run, in the same order.
pub proof fn lemma_rejected_message_changes_nothing(
    command_topic: Seq<char>,
    before: Seq<Inbound>,
    message: Inbound,
    after: Seq<Inbound>,
)
    requires
        dispatch_of(command_topic, message.topic, message.payload) is Rejected,
    ensures
        invocations(command_topic, before.push(message) + after) == invocations(
            command_topic,
            before + after,
        ),
{
    lemma_invocations_concat(command_topic, before.push(message), after);
    lemma_invocations_concat(command_topic, before, after);
    assert(before.push(message).drop_last() =~= before);
}

/// A message on the command topic whose payload decodes to a command
/// leads to exactly one action, the one of that command, whatever came
/// before it.
pub proof fn lemma_command_runs_once(
    command_topic: Seq<char>,
    before: Seq<Inbound>,
    message: Inbound,
    command: SwayCommandView,
)
    requires
        message.topic == command_topic,
        command_of_payload(message.payload) == Ok::<SwayCommandView, Rejection>(command),
    ensures
        invocations(command_topic, before.push(message)) == invocations(command_topic, before).push(
            command_action(command),
        ),
{
    assert(before.push(message).drop_last() =~= before);
}

/// The name, and the identifier, of the power switch of `output`.
pub open spec fn power_name(prefix: Seq<char>, output: Seq<char>) -> Seq<char> {
    prefix + output + "_power"@
}

/// The name of the enable switch of `output`. Its identifier is the name
/// of the output itself.
pub open spec fn enable_name(prefix: Seq<char>, output: Seq<char>) -> Seq<char> {
    prefix + output + "_enable"@
}

/// The template by which the hub reads from a state snapshot whether
/// `output` is powered.
pub open spec fn power_template(on: Seq<char>, off: Seq<char>, output: Seq<char>) -> Seq<char> {
    "{{ '"@ + on + "' if (value_json.outputs['"@ + output + "']).dpms == true else '"@ + off
        + "' }}"@
}

/// The template by which the hub reads from a state snapshot whether
/// `output` is enabled.
pub open spec fn enable_template(on: Seq<char>, off: Seq<char>, output: Seq<char>) -> Seq<char> {
    "{{ '"@ + on + "' if (value_json.outputs['"@ + output + "']).active == true else '"@ + off
        + "' }}"@
}

/// The template by which the hub reads the attributes of `output` from a
/// state snapshot.
pub open spec fn attributes_template(output: Seq<char>) -> Seq<char> {
    "{{ value_json.outputs['"@ + output + "'] | tojson }}"@
}

/// The switch that powers `output` on and off.
pub open spec fn power_switch_of(config: ConfigView, output: Seq<char>) -> SwitchView {
    SwitchView {
        command_topic: config.sway.command_topic,
        state_topic: config.sway.state_topic,
        common: ComponentCommonView {
            name: power_name(config.sway.name_prefix, output),
            unique_id: power_name(config.sway.name_prefix, output),
            device: config.homeassistant.device,
            availability: config.sway.availability,
        },
        value_template: power_template(config.switch_on_value, config.switch_off_value, output),
        json_attributes_topic: config.sway.state_topic,
        json_attributes_template: attributes_template(output),
        payload_on: command_json(SwayCommandView::OutputPowerOn { output_name: output }),
        payload_off: command_json(SwayCommandView::OutputPowerOff { output_name: output }),
        state_on: config.switch_on_value,
        state_off: config.switch_off_value,
        optimistic: false,
    }
}

/// The switch that enables and disables `output`.
pub open spec fn enable_switch_of(config: ConfigView, output: Seq<char>) -> SwitchView {
    SwitchView {
        command_topic: config.sway.command_topic,
        state_topic: config.sway.state_topic,
        common: ComponentCommonView {
            name: enable_name(config.sway.name_prefix, output),
            unique_id: output,
            device: config.homeassistant.device,
            availability: config.sway.availability,
        },
        value_template: enable_template(config.switch_on_value, config.switch_off_value, output),
        json_attributes_topic: config.sway.state_topic,
        json_attributes_template: attributes_template(output),
        payload_on: command_json(SwayCommandView::OutputEnable { output_name: output }),
        payload_off: command_json(SwayCommandView::OutputDisable { output_name: output }),
        state_on: config.switch_on_value,
        state_off: config.switch_off_value,
        optimistic: false,
    }
}

/// The announcement of a switch: its document, retained, on the topic
/// that its identifier gives.
pub open spec fn announcement(config: ConfigView, switch: SwitchView) -> PublicationView {
    PublicationView {
        topic: discovery_topic(
            config.homeassistant.autodiscover_prefix,
            "switch"@,
            switch.common.unique_id,
        ),
        payload: switch_json(switch),
        qos: QoS::AtLeastOnce,
        retain: true,
    }
}

/// The announcements for an inventory of outputs: for each output, in
/// order, its power switch and then its enable switch.
pub open spec fn discovery(config: ConfigView, outputs: Seq<Seq<char>>) -> Seq<PublicationView>
    decreases outputs.len(),
{
    if outputs.len() == 0 {
        Seq::empty()
    } else {
        discovery(config, outputs.drop_last()).push(
            announcement(config, power_switch_of(config, outputs.last())),
        ).push(announcement(config, enable_switch_of(config, outputs.last())))
    }
}

/// Running discovery again on the same settings and the same inventory
/// gives the same messages, byte for byte: the messages depend on the
/// text of the settings and on the names of the outputs, and on nothing
/// else.
pub proof fn lemma_discovery_repeats(
    first: Config,
    first_outputs: Seq<String>,
    second: Config,
    second_outputs: Seq<String>,
)
    requires
        first@ == second@,
        texts(first_outputs) == texts(second_outputs),
    ensures
        discovery(first@, texts(first_outputs)) == discovery(second@, texts(second_outputs)),
{
}

/// Discovery announces two entities for each output, the power switch
/// before the enable switch, outputs in the order of the inventory.
pub proof fn lemma_discovery_entries(config: ConfigView, outputs: Seq<Seq<char>>, i: int)
    requires
        0 <= i < outputs.len(),
    ensures
        discovery(config, outputs).len() == 2 * outputs.len(),
        discovery(config, outputs)[2 * i] == announcement(
            config,
            power_switch_of(config, outputs[i]),
        ),
        discovery(config, outputs)[2 * i + 1] == announcement(
            config,
            enable_switch_of(config, outputs[i]),
        ),
    decreases outputs.len(),
{
    lemma_discovery_len(config, outputs.drop_last());
    if i < outputs.len() - 1 {
        lemma_discovery_entries(config, outputs.drop_last(), i);
    }
}

/// Discovery announces two entities for each output.
pub proof fn lemma_discovery_len(config: ConfigView, outputs: Seq<Seq<char>>)
    ensures
        discovery(config, outputs).len() == 2 * outputs.len(),
    decreases outputs.len(),
{
    if outputs.len() > 0 {
        lemma_discovery_len(config, outputs.drop_last());
    }
}

/// Every announcement is retained and asks for delivery at least once, so
/// that a hub that was away during discovery still finds it.
pub proof fn lemma_discovery_retained(config: ConfigView, outputs: Seq<Seq<char>>, k: int)
    requires
        0 <= k < discovery(config, outputs).len(),
    ensures
        discovery(config, outputs)[k].retain,
        discovery(config, outputs)[k].qos == QoS::AtLeastOnce,
    decreases outputs.len(),
{
    lemma_discovery_len(config, outputs);
    lemma_discovery_len(config, outputs.drop_last());
    if k < 2 * (outputs.len() - 1) {
        lemma_discovery_retained(config, outputs.drop_last(), k);
    }
}

/// Two texts between the same prefix and the same suffix are equal where
/// the whole texts are.
proof fn lemma_same_frame(prefix: Seq<char>, a: Seq<char>, b: Seq<char>, suffix: Seq<char>)
    requires
        prefix + a + suffix == prefix + b + suffix,
    ensures
        a == b,
{
    let left = prefix + a + suffix;
    let right = prefix + b + suffix;
    assert(left.len() == right.len());
    assert(a.len() == b.len());
    assert forall|i: int| 0 <= i < a.len() implies a[i] == b[i] by {
        assert(left[prefix.len() + i] == a[i]);
        assert(right[prefix.len() + i] == b[i]);
    }
    assert(a =~= b);
}

/// The identifiers of the entities are those of their outputs: two
/// power switches have the same identifier only where they belong to the
/// same output, and so have two enable switches, whose identifier is the
/// output's name. The same holds of the names of the entities, and no
/// power switch has the name of an enable switch.
pub proof fn lemma_identifiers_distinct(config: ConfigView, a: Seq<char>, b: Seq<char>)
    ensures
        power_switch_of(config, a).common.unique_id == power_switch_of(config, b).common.unique_id
            ==> a == b,
        enable_switch_of(config, a).common.unique_id == enable_switch_of(
            config,
            b,
        ).common.unique_id ==> a == b,
        power_switch_of(config, a).common.name == power_switch_of(config, b).common.name ==> a
            == b,
        enable_switch_of(config, a).common.name == enable_switch_of(config, b).common.name ==> a
            == b,
        power_switch_of(config, a).common.name != enable_switch_of(config, b).common.name,
{
    let prefix = config.sway.name_prefix;
    if power_name(prefix, a) == power_name(prefix, b) {
        lemma_same_frame(prefix, a, b, "_power"@);
    }
    if enable_name(prefix, a) == enable_name(prefix, b) {
        lemma_same_frame(prefix, a, b, "_enable"@);
    }
    reveal_strlit("_power");
    reveal_strlit("_enable");
    let power = power_name(prefix, a);
    let enable = enable_name(prefix, b);
    assert(power.last() == 'r');
    assert(enable.last() == 'e');
}

/// Writes a state template: the two state texts around the test of one
/// attribute of `output`.
fn state_template(on: &str, off: &str, output: &str, test: &str) -> (template: String)
    ensures
        template@ == "{{ '"@ + on@ + "' if (value_json.outputs['"@ + output@ + test@ + off@
            + "' }}"@,
{
    let mut template = String::from_str("{{ '");
    template.append(on);
    template.append("' if (value_json.outputs['");
    template.append(output);
    template.append(test);
    template.append(off);
    template.append("' }}");
    template
}

fn attributes(output: &str) -> (template: String)
    ensures
        template@ == attributes_template(output@),
{
    let mut template = String::from_str("{{ value_json.outputs['");
    template.append(output);
    template.append("'] | tojson }}");
    template
}

fn entity_name(prefix: &str, output: &str, suffix: &str) -> (name: String)
    ensures
        name@ == prefix@ + output@ + suffix@,
{
    let mut name = String::from_str(prefix);
    name.append(output);
    name.append(suffix);
    name
}

/// Builds the switch that powers `output` on and off.
pub fn power_switch(config: &Config, output: &str) -> (switch: Switch)
    ensures
        switch@ == power_switch_of(config@, output@),
{
    let name = entity_name(config.sway.name_prefix.as_str(), output, "_power");
    let unique_id = name.clone();
    let on = SwayCommand::OutputPowerOn { output_name: output.to_owned() };
    let off = SwayCommand::OutputPowerOff { output_name: output.to_owned() };
    config.build_switch(
        config.sway.command_topic.clone(),
        config.sway.state_topic.clone(),
        config.sway.availability.clone(),
        name,
        unique_id,
        state_template(
            config.switch_on_value.as_str(),
            config.switch_off_value.as_str(),
            output,
            "']).dpms == true else '",
        ),
        attributes(output),
        on.to_json(),
        off.to_json(),
        config.sway.state_topic.clone(),
    )
}

/// Builds the switch that enables and disables `output`.
pub fn enable_switch(config: &Config, output: &str) -> (switch: Switch)
    ensures
        switch@ == enable_switch_of(config@, output@),
{
    let name = entity_name(config.sway.name_prefix.as_str(), output, "_enable");
    let unique_id = output.to_owned();
    let on = SwayCommand::OutputEnable { output_name: output.to_owned() };
    let off = SwayCommand::OutputDisable { output_name: output.to_owned() };
    config.build_switch(
        config.sway.command_topic.clone(),
        config.sway.state_topic.clone(),
        config.sway.availability.clone(),
        name,
        unique_id,
        state_template(
            config.switch_on_value.as_str(),
            config.switch_off_value.as_str(),
            output,
            "']).active == true else '",
        ),
        attributes(output),
        on.to_json(),
        off.to_json(),
        config.sway.state_topic.clone(),
    )
}

/// The announcements with which the bridge makes the outputs known to
/// the hub, in the order in which they are to be published. Nothing here
/// touches the window manager: the inventory is read before, and the
/// messages are sent after.
pub fn autodiscover(config: &Config, outputs: &Vec<String>) -> (messages: Vec<Publication>)
    ensures
        publications(messages@) == discovery(config@, texts(outputs@)),
{
    let ghost names = texts(outputs@);
    let mut messages: Vec<Publication> = Vec::new();
    let mut i: usize = 0;
    assert(publications(messages@) =~= discovery(config@, names.take(0)));
    while i < outputs.len()
        invariant
            i <= outputs.len(),
            names == texts(outputs@),
            publications(messages@) == discovery(config@, names.take(i as int)),
        decreases outputs.len() - i,
    {
        let power = power_switch(config, outputs[i].as_str());
        let enable = enable_switch(config, outputs[i].as_str());
        let first = config.publish_autodiscover(&power);
        let second = config.publish_autodiscover(&enable);
        proof {
            let next = names.take(i as int + 1);
            assert(next.drop_last() =~= names.take(i as int));
            assert(next.last() == outputs@[i as int]@);
            assert(publications(messages@.push(first).push(second)) =~= publications(
                messages@,
            ).push(first@).push(second@));
        }
        messages.push(first);
        messages.push(second);
        i = i + 1;
    }
    assert(names.take(outputs.len() as int) =~= names);
    messages
}

/// What the bridge reads of one workspace.
pub struct WorkspaceInfo {
    pub name: String,
    pub focused: bool,
}

pub struct WorkspaceView {
    pub name: Seq<char>,
    pub focused: bool,
}

impl View for WorkspaceInfo {
    type V = WorkspaceView;

    open spec fn view(&self) -> WorkspaceView {
        WorkspaceView { name: self.name@, focused: self.focused }
    }
}

/// The views of a list of workspaces, in order.
pub open spec fn workspaces_view(workspaces: Seq<WorkspaceInfo>) -> Seq<WorkspaceView> {
    workspaces.map_values(|w: WorkspaceInfo| w@)
}

/// The name of the last workspace in the list that has the focus, or the
/// empty text where none has it.
pub open spec fn focused_name(workspaces: Seq<WorkspaceView>) -> Seq<char>
    decreases workspaces.len(),
{
    if workspaces.len() == 0 {
        Seq::empty()
    } else if workspaces.last().focused {
        workspaces.last().name
    } else {
        focused_name(workspaces.drop_last())
    }
}

/// The workspace that a state snapshot reports as the current one.
pub fn current_workspace(workspaces: &Vec<WorkspaceInfo>) -> (name: String)
    ensures
        name@ == focused_name(workspaces_view(workspaces@)),
{
    let ghost all = workspaces_view(workspaces@);
    let mut i: usize = workspaces.len();
    assert(all.take(i as int) =~= all);
    while i > 0
        invariant
            i <= workspaces.len(),
            all == workspaces_view(workspaces@),
            focused_name(all) == focused_name(all.take(i as int)),
        decreases i,
    {
        proof {
            assert(all.take(i as int).last() == workspaces@[i as int - 1]@);
            assert(all.take(i as int).drop_last() =~= all.take(i as int - 1));
        }
        i = i - 1;
        if workspaces[i].focused {
            return workspaces[i].name.clone();
        }
    }
    String::new()
}

/// A kind of window-manager event that a bridge can subscribe to.
#[derive(Clone, Copy, Debug, PartialEq, Eq, Structural)]
pub enum EventKind {
    Workspace,
    Window,
}

/// The kinds of events after which the bridge takes a new snapshot:
/// those of workspaces and those of windows.
pub fn subscriptions() -> (kinds: Vec<EventKind>)
    ensures
        kinds@ == seq![EventKind::Workspace, EventKind::Window],
{
    let mut kinds: Vec<EventKind> = Vec::new();
    kinds.push(EventKind::Workspace);
    kinds.push(EventKind::Window);
    assert(kinds@ =~= seq![EventKind::Workspace, EventKind::Window]);
    kinds
}

/// The message that carries a state snapshot. It is not retained: the
/// state topic tells what holds now, to those who listen now.
pub fn state_message(config: &Config, snapshot: String) -> (message: Publication)
    ensures
        message@ == (PublicationView {
            topic: config@.sway.state_topic,
            payload: snapshot@,
            qos: QoS::AtLeastOnce,
            retain: false,
        }),
{
    Publication {
        topic: config.sway.state_topic.clone(),
        payload: snapshot,
        qos: QoS::AtLeastOnce,
        retain: false,
    }
}

} // verus!
