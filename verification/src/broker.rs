//! What a bridge hands to the broker: messages to publish, the fallback
//! message registered at connect time, and the settings of a connection.

use vstd::prelude::*;

verus! {

/// The delivery guarantee asked of the broker for one message.
#[derive(Clone, Copy, Debug, PartialEq, Eq, Structural)]
pub enum QoS {
    AtMostOnce,
    AtLeastOnce,
    ExactlyOnce,
}

/// A message for the broker. A retained message is kept by the broker as
/// the last value of its topic and handed to every later subscriber.
pub struct Publication {
    pub topic: String,
    pub payload: String,
    pub qos: QoS,
    pub retain: bool,
}

pub struct PublicationView {
    pub topic: Seq<char>,
    pub payload: Seq<char>,
    pub qos: QoS,
    pub retain: bool,
}

impl View for Publication {
    type V = PublicationView;

    open spec fn view(&self) -> PublicationView {
        PublicationView {
            topic: self.topic@,
            payload: self.payload@,
            qos: self.qos,
            retain: self.retain,
        }
    }
}

/// The views of a sequence of messages, in order.
pub open spec fn publications(messages: Seq<Publication>) -> Seq<PublicationView> {
    messages.map_values(|m: Publication| m@)
}

/// The message that the broker publishes on behalf of a client that
/// disconnects without notice.
pub struct LastWill {
    pub topic: String,
    pub payload: String,
    pub qos: QoS,
    pub retain: bool,
}

impl View for LastWill {
    type V = PublicationView;

    open spec fn view(&self) -> PublicationView {
        PublicationView {
            topic: self.topic@,
            payload: self.payload@,
            qos: self.qos,
            retain: self.retain,
        }
    }
}

/// A user name and password for the broker.
pub struct Login {
    pub username: String,
    pub password: String,
}

pub struct LoginView {
    pub username: Seq<char>,
    pub password: Seq<char>,
}

impl View for Login {
    type V = LoginView;

    open spec fn view(&self) -> LoginView {
        LoginView { username: self.username@, password: self.password@ }
    }
}

/// The settings from which a connection to the broker is opened.
pub struct ClientOptions {
    pub client_id: String,
    pub host: String,
    pub port: u16,
    /// Seconds between two pings of an otherwise silent connection.
    pub keep_alive: u64,
    pub last_will: LastWill,
    pub credentials: Option<Login>,
    /// How many requests may wait between the client and its event loop.
    pub capacity: usize,
}

pub struct ClientOptionsView {
    pub client_id: Seq<char>,
    pub host: Seq<char>,
    pub port: u16,
    pub keep_alive: u64,
    pub last_will: PublicationView,
    pub credentials: Option<LoginView>,
    pub capacity: usize,
}

impl View for ClientOptions {
    type V = ClientOptionsView;

    open spec fn view(&self) -> ClientOptionsView {
        ClientOptionsView {
            client_id: self.client_id@,
            host: self.host@,
            port: self.port,
            keep_alive: self.keep_alive,
            last_will: self.last_will@,
            credentials: match self.credentials {
                Some(login) => Some(login@),
                None => None,
            },
            capacity: self.capacity,
        }
    }
}

} // verus!
