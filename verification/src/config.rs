//! Broker connection settings: what the application asks for, the rules a
//! configuration has to meet, and the settings handed to the transport.

use vstd::prelude::*;
use vstd::string::StringExecFns;
use vstd::string::StringSliceAdditionalSpecFns;
use vstd::utf8::encode_utf8;

use crate::text::{decimal, push_decimal};

verus! {

/// Keep-alive interval used when the configuration names none, in seconds.
pub const DEFAULT_KEEP_ALIVE_SECS: u64 = 30;

/// Connection timeout used when the configuration names none, in
/// milliseconds.
pub const DEFAULT_CONNECTION_TIMEOUT_MS: u64 = 5000;

/// Delivery guarantee requested for a published or subscribed message.
#[derive(Debug, Clone, Copy, PartialEq, Eq, Structural)]
pub enum QoS {
    /// Fire and forget.
    AtMostOnce,
    /// Acknowledged delivery; duplicates are possible.
    AtLeastOnce,
    /// Assured single delivery.
    ExactlyOnce,
}

/// Why a configuration is refused.
#[derive(Debug, Clone, Copy, PartialEq, Eq, Structural)]
pub enum ConfigError {
    /// The broker host is empty.
    EmptyHost,
    /// The client identifier is empty.
    EmptyClientId,
    /// Credentials are present and the user name is empty.
    EmptyUsername,
    /// Credentials are present and the password is empty.
    EmptyPassword,
    /// A Last Will is present and its topic is empty.
    EmptyLwtTopic,
    /// The host, the client identifier, a credential or the topic of the
    /// Last Will holds a zero byte. The transport takes these as
    /// zero-terminated strings and refuses such a text.
    ZeroByte,
}

/// Last Will and Testament: the message the broker publishes on the
/// client's behalf when the connection drops without a clean disconnect.
#[derive(Debug, Clone, Copy)]
pub struct LwtConfig<'a> {
    topic: &'a str,
    payload: &'a [u8],
    qos: QoS,
    retain: bool,
}

/// What a [`LwtConfig`] holds.
pub struct LwtView {
    pub topic: Seq<char>,
    pub payload: Seq<u8>,
    pub qos: QoS,
    pub retain: bool,
}

impl<'a> View for LwtConfig<'a> {
    type V = LwtView;

    closed spec fn view(&self) -> LwtView {
        LwtView { topic: self.topic@, payload: self.payload@, qos: self.qos, retain: self.retain }
    }
}

impl<'a> LwtConfig<'a> {
    /// Describes a Last Will: the topic the broker publishes to, the
    /// payload, the delivery guarantee and whether the broker retains it.
    pub fn new(topic: &'a str, payload: &'a [u8], qos: QoS, retain: bool) -> (lwt: Self)
        ensures
            lwt@ == (LwtView { topic: topic@, payload: payload@, qos, retain }),
    {
        LwtConfig { topic, payload, qos, retain }
    }

    /// The topic the broker publishes to.
    pub fn topic(&self) -> (topic: &'a str)
        ensures
            topic@ == self@.topic,
    {
        self.topic
    }

    /// The payload of the message.
    pub fn payload(&self) -> (payload: &'a [u8])
        ensures
            payload@ == self@.payload,
    {
        self.payload
    }

    /// The delivery guarantee of the message.
    pub fn qos(&self) -> (qos: QoS)
        ensures
            qos == self@.qos,
    {
        self.qos
    }

    /// Whether the broker retains the message.
    pub fn retain(&self) -> (retain: bool)
        ensures
            retain == self@.retain,
    {
        self.retain
    }
}

/// Broker connection configuration.
#[derive(Debug, Clone, Copy)]
pub struct MqttConfig<'a> {
    /// Broker host name or address.
    pub host: &'a str,
    /// Broker port.
    pub port: u16,
    /// Client identifier, unique per broker.
    pub client_id: &'a str,
    /// Keep-alive interval in seconds; `None` selects the default.
    pub keep_alive_secs: Option<u64>,
    /// Connection timeout in milliseconds; `None` selects the default.
    pub connection_timeout_ms: Option<u64>,
    lwt: Option<LwtConfig<'a>>,
    username: Option<&'a str>,
    password: Option<&'a str>,
}

/// What a [`MqttConfig`] holds.
pub struct MqttConfigView {
    pub host: Seq<char>,
    pub port: u16,
    pub client_id: Seq<char>,
    pub keep_alive_secs: Option<u64>,
    pub connection_timeout_ms: Option<u64>,
    pub lwt: Option<LwtView>,
    pub username: Option<Seq<char>>,
    pub password: Option<Seq<char>>,
}

/// Whether the UTF-8 encoding of `text` holds a zero byte.
pub open spec fn has_zero_byte(text: Seq<char>) -> bool {
    encode_utf8(text).contains(0u8)
}

/// Whether one of the texts that the transport takes as zero-terminated
/// strings holds a zero byte: the host, the client identifier, the
/// credentials, the topic of the Last Will.
pub open spec fn any_zero_byte(c: MqttConfigView) -> bool {
    ||| has_zero_byte(c.host)
    ||| has_zero_byte(c.client_id)
    ||| c.username is Some && has_zero_byte(c.username->0)
    ||| c.password is Some && has_zero_byte(c.password->0)
    ||| c.lwt is Some && has_zero_byte(c.lwt->0.topic)
}

/// The first rule that a configuration breaks, if it breaks one: host and
/// client identifier are not empty, credentials that are present are not
/// empty, a Last Will that is present names a topic, and none of these
/// texts holds a zero byte.
pub open spec fn config_violation(c: MqttConfigView) -> Option<ConfigError> {
    if c.host.len() == 0 {
        Some(ConfigError::EmptyHost)
    } else if c.client_id.len() == 0 {
        Some(ConfigError::EmptyClientId)
    } else if c.username is Some && c.username->0.len() == 0 {
        Some(ConfigError::EmptyUsername)
    } else if c.password is Some && c.password->0.len() == 0 {
        Some(ConfigError::EmptyPassword)
    } else if c.lwt is Some && c.lwt->0.topic.len() == 0 {
        Some(ConfigError::EmptyLwtTopic)
    } else if any_zero_byte(c) {
        Some(ConfigError::ZeroByte)
    } else {
        None
    }
}

/// Whether the text holds a zero byte.
pub fn contains_zero_byte(text: &str) -> (found: bool)
    ensures
        found == has_zero_byte(text@),
{
    let bytes = text.as_bytes();
    let mut i: usize = 0;
    while i < bytes.len()
        invariant
            bytes@ == text.spec_bytes(),
            i <= bytes@.len(),
            forall|k: int| 0 <= k < i ==> bytes@[k] != 0u8,
        decreases bytes@.len() - i,
    {
        if bytes[i] == 0 {
            return true;
        }
        i += 1;
    }
    false
}

/// The keep-alive interval in force, in seconds.
pub open spec fn keep_alive_of(c: MqttConfigView) -> u64 {
    match c.keep_alive_secs {
        Some(secs) => secs,
        None => DEFAULT_KEEP_ALIVE_SECS,
    }
}

/// The connection timeout in force, in milliseconds.
pub open spec fn timeout_of(c: MqttConfigView) -> u64 {
    match c.connection_timeout_ms {
        Some(ms) => ms,
        None => DEFAULT_CONNECTION_TIMEOUT_MS,
    }
}

/// The address of the broker as the transport takes it:
/// `mqtt://`, the host, a colon and the port in decimal.
pub open spec fn broker_url_of(host: Seq<char>, port: u16) -> Seq<char> {
    "mqtt://"@ + host + ":"@ + decimal(port as nat)
}

impl<'a> View for MqttConfig<'a> {
    type V = MqttConfigView;

    closed spec fn view(&self) -> MqttConfigView {
        MqttConfigView {
            host: self.host@,
            port: self.port,
            client_id: self.client_id@,
            keep_alive_secs: self.keep_alive_secs,
            connection_timeout_ms: self.connection_timeout_ms,
            lwt: match self.lwt {
                Some(lwt) => Some(lwt@),
                None => None,
            },
            username: match self.username {
                Some(name) => Some(name@),
                None => None,
            },
            password: match self.password {
                Some(word) => Some(word@),
                None => None,
            },
        }
    }
}

impl<'a> MqttConfig<'a> {
    /// A configuration with the required fields; everything else takes its
    /// default: no Last Will, no credentials, default intervals.
    pub fn new(host: &'a str, port: u16, client_id: &'a str) -> (cfg: Self)
        ensures
            cfg@ == (MqttConfigView {
                host: host@,
                port,
                client_id: client_id@,
                keep_alive_secs: None,
                connection_timeout_ms: None,
                lwt: None,
                username: None,
                password: None,
            }),
    {
        MqttConfig {
            host,
            port,
            client_id,
            keep_alive_secs: None,
            connection_timeout_ms: None,
            lwt: None,
            username: None,
            password: None,
        }
    }

    /// Sets the keep-alive interval, in seconds.
    pub fn with_keep_alive(self, secs: u64) -> (cfg: Self)
        ensures
            cfg@ == (MqttConfigView { keep_alive_secs: Some(secs), ..self@ }),
    {
        let mut cfg = self;
        cfg.keep_alive_secs = Some(secs);
        cfg
    }

    /// Sets the connection timeout, in milliseconds.
    pub fn with_timeout(self, ms: u64) -> (cfg: Self)
        ensures
            cfg@ == (MqttConfigView { connection_timeout_ms: Some(ms), ..self@ }),
    {
        let mut cfg = self;
        cfg.connection_timeout_ms = Some(ms);
        cfg
    }

    /// Declares a Last Will.
    pub fn with_lwt(self, lwt: LwtConfig<'a>) -> (cfg: Self)
        ensures
            cfg@ == (MqttConfigView { lwt: Some(lwt@), ..self@ }),
    {
        let mut cfg = self;
        cfg.lwt = Some(lwt);
        cfg
    }

    /// Sets the credentials presented to the broker.
    pub fn with_auth(self, username: &'a str, password: &'a str) -> (cfg: Self)
        ensures
            cfg@ == (MqttConfigView {
                username: Some(username@),
                password: Some(password@),
                ..self@
            }),
    {
        let mut cfg = self;
        cfg.username = Some(username);
        cfg.password = Some(password);
        cfg
    }

    /// The broker host.
    pub fn host(&self) -> (host: &'a str)
        ensures
            host@ == self@.host,
    {
        self.host
    }

    /// The broker port.
    pub fn port(&self) -> (port: u16)
        ensures
            port == self@.port,
    {
        self.port
    }

    /// The client identifier.
    pub fn client_id(&self) -> (id: &'a str)
        ensures
            id@ == self@.client_id,
    {
        self.client_id
    }

    /// The Last Will, if one was declared.
    pub fn lwt(&self) -> (lwt: Option<LwtConfig<'a>>)
        ensures
            lwt is Some == self@.lwt is Some,
            lwt is Some ==> lwt->0@ == self@.lwt->0,
    {
        self.lwt
    }

    /// The user name, if credentials were set.
    pub fn username(&self) -> (name: Option<&'a str>)
        ensures
            name is Some == self@.username is Some,
            name is Some ==> name->0@ == self@.username->0,
    {
        self.username
    }

    /// The password, if credentials were set.
    pub fn password(&self) -> (word: Option<&'a str>)
        ensures
            word is Some == self@.password is Some,
            word is Some ==> word->0@ == self@.password->0,
    {
        self.password
    }

    /// The keep-alive interval in force: the one set, else
    /// [`DEFAULT_KEEP_ALIVE_SECS`].
    pub fn keep_alive(&self) -> (secs: u64)
        ensures
            secs == keep_alive_of(self@),
    {
        match self.keep_alive_secs {
            Some(secs) => secs,
            None => DEFAULT_KEEP_ALIVE_SECS,
        }
    }

    /// The connection timeout in force: the one set, else
    /// [`DEFAULT_CONNECTION_TIMEOUT_MS`].
    pub fn timeout_ms(&self) -> (ms: u64)
        ensures
            ms == timeout_of(self@),
    {
        match self.connection_timeout_ms {
            Some(ms) => ms,
            None => DEFAULT_CONNECTION_TIMEOUT_MS,
        }
    }

    /// Checks the configuration against the rules of
    /// [`config_violation`] and names the first one broken.
    pub fn validate(&self) -> (checked: Result<(), ConfigError>)
        ensures
            checked == match config_violation(self@) {
                Some(e) => Err::<(), ConfigError>(e),
                None => Ok(()),
            },
    {
        if self.host.is_empty() {
            return Err(ConfigError::EmptyHost);
        }
        if self.client_id.is_empty() {
            return Err(ConfigError::EmptyClientId);
        }
        if let Some(name) = self.username {
            if name.is_empty() {
                return Err(ConfigError::EmptyUsername);
            }
        }
        if let Some(word) = self.password {
            if word.is_empty() {
                return Err(ConfigError::EmptyPassword);
            }
        }
        if let Some(lwt) = self.lwt {
            if lwt.topic.is_empty() {
                return Err(ConfigError::EmptyLwtTopic);
            }
        }
        if contains_zero_byte(self.host) || contains_zero_byte(self.client_id) {
            return Err(ConfigError::ZeroByte);
        }
        if let Some(name) = self.username {
            if contains_zero_byte(name) {
                return Err(ConfigError::ZeroByte);
            }
        }
        if let Some(word) = self.password {
            if contains_zero_byte(word) {
                return Err(ConfigError::ZeroByte);
            }
        }
        if let Some(lwt) = self.lwt {
            if contains_zero_byte(lwt.topic) {
                return Err(ConfigError::ZeroByte);
            }
        }
        Ok(())
    }

    /// The address of the broker as the transport takes it.
    pub fn broker_url(&self) -> (url: String)
        ensures
            url@ == broker_url_of(self@.host, self@.port),
    {
        let mut url = String::from_str("mqtt://");
        url.append(self.host);
        url.append(":");
        push_decimal(&mut url, self.port as u64);
        url
    }
}

/// The settings handed to the transport when the connection is opened.
#[derive(Debug, Clone)]
pub struct ClientSettings<'a> {
    /// Address of the broker.
    pub url: String,
    /// Client identifier.
    pub client_id: &'a str,
    /// Keep-alive interval in seconds.
    pub keep_alive_secs: u64,
    /// Last Will, if one was declared.
    pub lwt: Option<LwtConfig<'a>>,
    /// User name, if credentials were set.
    pub username: Option<&'a str>,
    /// Password, if credentials were set.
    pub password: Option<&'a str>,
}

impl<'a> ClientSettings<'a> {
    /// Whether these are the settings that the configuration `c` asks for.
    pub open spec fn matches(&self, c: MqttConfigView) -> bool {
        &&& self.url@ == broker_url_of(c.host, c.port)
        &&& self.client_id@ == c.client_id
        &&& self.keep_alive_secs == keep_alive_of(c)
        &&& self.lwt is Some == c.lwt is Some
        &&& (self.lwt is Some ==> self.lwt->0@ == c.lwt->0)
        &&& self.username is Some == c.username is Some
        &&& (self.username is Some ==> self.username->0@ == c.username->0)
        &&& self.password is Some == c.password is Some
        &&& (self.password is Some ==> self.password->0@ == c.password->0)
    }
}

impl<'a> MqttConfig<'a> {
    /// Builds the settings for the transport. A configuration that breaks
    /// a rule of [`config_violation`] is refused with the first rule
    /// broken; any other yields the settings it asks for.
    pub fn client_settings(&self) -> (built: Result<ClientSettings<'a>, ConfigError>)
        ensures
            match config_violation(self@) {
                Some(e) => built == Err::<ClientSettings<'a>, ConfigError>(e),
                None => built is Ok && built->Ok_0.matches(self@),
            },
    {
        match self.validate() {
            Err(e) => Err(e),
            Ok(()) => Ok(
                ClientSettings {
                    url: self.broker_url(),
                    client_id: self.client_id,
                    keep_alive_secs: self.keep_alive(),
                    lwt: self.lwt,
                    username: self.username,
                    password: self.password,
                },
            ),
        }
    }
}

} // verus!
