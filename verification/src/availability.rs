//! The lifecycle by which the hub knows whether a bridge can be reached.
//!
//! A bridge is offline until it says otherwise. Before it connects it
//! registers a fallback message that the broker publishes for it if the
//! connection is lost without notice. Once its two loops run it publishes
//! that it is online. It never publishes that it is offline: only the
//! broker does.

use crate::broker::{LastWill, Publication, PublicationView, QoS};
use crate::config::{MqttModuleConfig, PulseAudioConfig, SwayConfig};
use crate::homeassistant::{Availability, AvailabilityView};
use vstd::prelude::*;

verus! {

/// What the bridge has told the hub of itself.
#[derive(Clone, Copy, Debug, PartialEq, Eq, Structural)]
pub enum Reachability {
    Offline,
    Online,
}

/// How the connection to the broker stands.
#[derive(Clone, Copy, Debug, PartialEq, Eq, Structural)]
pub enum Link {
    /// The connection holds.
    Up,
    /// The connection was lost without notice.
    Lost,
}

/// The fallback message for an availability record: its offline payload
/// on its topic, retained.
pub open spec fn fallback_of(record: AvailabilityView) -> PublicationView {
    PublicationView {
        topic: record.topic,
        payload: record.payload_not_available,
        qos: QoS::AtLeastOnce,
        retain: true,
    }
}

/// The message by which a bridge declares itself online: its online
/// payload on its topic, retained like the fallback, so that a hub that
/// subscribes later reads it and not an older fallback.
pub open spec fn online_of(record: AvailabilityView) -> PublicationView {
    PublicationView {
        topic: record.topic,
        payload: record.payload_available,
        qos: QoS::AtLeastOnce,
        retain: true,
    }
}

/// The availability of one bridge. A manager exists only armed: making
/// one yields the fallback message, which goes into the connection
/// settings before the connection is opened.
pub struct AvailabilityManager {
    record: Availability,
    state_loop: bool,
    command_loop: bool,
    state: Reachability,
}

impl AvailabilityManager {
    /// The availability record that the manager was armed with.
    pub closed spec fn record(&self) -> AvailabilityView {
        self.record@
    }

    /// Whether the state loop has started.
    pub closed spec fn state_loop_ready(&self) -> bool {
        self.state_loop
    }

    /// Whether the command loop has subscribed.
    pub closed spec fn command_loop_ready(&self) -> bool {
        self.command_loop
    }

    /// What the bridge has told the hub of itself.
    pub closed spec fn reachability(&self) -> Reachability {
        self.state
    }

    /// The payload that the hub reads on the availability topic as the
    /// latest word of this session, given how the link stands: the
    /// fallback once the link is lost, the online payload while the
    /// link holds and the bridge has declared itself online, and nothing
    /// before that.
    pub open spec fn hub_reads(&self, link: Link) -> Option<Seq<char>> {
        match link {
            Link::Lost => Some(fallback_of(self.record()).payload),
            Link::Up => match self.reachability() {
                Reachability::Online => Some(self.record().payload_available),
                Reachability::Offline => None,
            },
        }
    }

    /// Arms the availability of a bridge: the manager starts offline, with
    /// no loop running, and the fallback message is handed out.
    pub fn arm(record: Availability) -> (armed: (Self, LastWill))
        ensures
            armed.0.record() == record@,
            armed.0.reachability() == Reachability::Offline,
            !armed.0.state_loop_ready(),
            !armed.0.command_loop_ready(),
            armed.1@ == fallback_of(record@),
    {
        let will = LastWill {
            topic: record.topic.clone(),
            payload: record.payload_not_available.clone(),
            qos: QoS::AtLeastOnce,
            retain: true,
        };
        let manager = AvailabilityManager {
            record,
            state_loop: false,
            command_loop: false,
            state: Reachability::Offline,
        };
        (manager, will)
    }

    /// Notes that the state loop has started.
    pub fn state_loop_started(&mut self)
        ensures
            final(self).state_loop_ready(),
            final(self).command_loop_ready() == old(self).command_loop_ready(),
            final(self).reachability() == old(self).reachability(),
            final(self).record() == old(self).record(),
    {
        self.state_loop = true;
    }

    /// Notes that the command loop has subscribed.
    pub fn command_loop_started(&mut self)
        ensures
            final(self).command_loop_ready(),
            final(self).state_loop_ready() == old(self).state_loop_ready(),
            final(self).reachability() == old(self).reachability(),
            final(self).record() == old(self).record(),
    {
        self.command_loop = true;
    }

    /// Whether the bridge has declared itself online.
    pub fn is_online(&self) -> (online: bool)
        ensures
            online == (self.reachability() == Reachability::Online),
    {
        match self.state {
            Reachability::Online => true,
            Reachability::Offline => false,
        }
    }

    /// Declares the bridge online, once both loops run: the manager
    /// becomes online and hands out the message to publish, which is
    /// retained. Before that nothing is handed out and nothing changes.
    pub fn declare_online(&mut self) -> (message: Option<Publication>)
        ensures
            final(self).record() == old(self).record(),
            final(self).state_loop_ready() == old(self).state_loop_ready(),
            final(self).command_loop_ready() == old(self).command_loop_ready(),
            old(self).state_loop_ready() && old(self).command_loop_ready() ==> {
                &&& final(self).reachability() == Reachability::Online
                &&& message matches Some(m)
                &&& m@ == online_of(old(self).record())
            },
            !(old(self).state_loop_ready() && old(self).command_loop_ready()) ==> {
                &&& final(self).reachability() == old(self).reachability()
                &&& message is None
            },
    {
        if self.state_loop && self.command_loop {
            self.state = Reachability::Online;
            Some(
                Publication {
                    topic: self.record.topic.clone(),
                    payload: self.record.payload_available.clone(),
                    qos: QoS::AtLeastOnce,
                    retain: true,
                },
            )
        } else {
            None
        }
    }
}

/// A connection lost without notice shows the hub the offline payload,
/// whatever the bridge had declared before: the fallback was registered
/// when the manager was made, and it is retained.
pub proof fn lemma_lost_link_reads_offline(manager: AvailabilityManager)
    ensures
        manager.hub_reads(Link::Lost) == Some(manager.record().payload_not_available),
        fallback_of(manager.record()).retain,
{
}

/// While the link holds, the hub reads the online payload exactly when
/// the bridge has declared itself online.
pub proof fn lemma_link_up_reads_online(manager: AvailabilityManager)
    ensures
        manager.reachability() == Reachability::Online ==> manager.hub_reads(Link::Up) == Some(
            manager.record().payload_available,
        ),
        manager.reachability() == Reachability::Offline ==> manager.hub_reads(Link::Up) is None,
{
}

/// The online message and the fallback go to the same topic and are both
/// retained: whichever was published last is what the broker hands to a
/// hub that subscribes later.
pub proof fn lemma_online_and_fallback_share_the_topic(record: AvailabilityView)
    ensures
        online_of(record).topic == fallback_of(record).topic,
        online_of(record).retain,
        fallback_of(record).retain,
        online_of(record).payload == record.payload_available,
        fallback_of(record).payload == record.payload_not_available,
{
}

/// The fallback message that the connection of a bridge registers is the
/// one of the bridge's availability record: what a manager hands out when
/// it is armed with that record is what the broker holds.
pub proof fn lemma_connection_registers_fallback(sway: SwayConfig, pulseaudio: PulseAudioConfig)
    ensures
        fallback_of(sway@.availability) == (PublicationView {
            topic: sway.will_topic(),
            payload: sway.will_payload(),
            qos: QoS::AtLeastOnce,
            retain: true,
        }),
        fallback_of(pulseaudio@.availability) == (PublicationView {
            topic: pulseaudio.will_topic(),
            payload: pulseaudio.will_payload(),
            qos: QoS::AtLeastOnce,
            retain: true,
        }),
{
}

} // verus!
