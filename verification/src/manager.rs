//! The owning side of a connection: building it step by step, publishing,
//! and the shutdown sequence.
//!
//! The manager decides; the caller acts. Each method takes what the caller
//! has just learned from the transport or from the shared state and
//! answers with what is to be done next.

use vstd::prelude::*;
use vstd::slice::slice_to_vec;
use vstd::string::StringExecFns;
use vstd::string::StringSliceAdditionalSpecFns;

use crate::config::{config_violation, timeout_of, MqttConfig, MqttConfigView, QoS};
use crate::error::MqttError;
use crate::topic::{
    shutdown_topic, shutdown_topic_of, startup_topic, startup_topic_of, texts_of, SubscriptionSet,
};

verus! {

/// The pause between two looks at the shared `connected` flag while a
/// connection is awaited, in milliseconds.
pub const CONNECTION_POLL_INTERVAL_MS: u64 = 100;

/// The byte that every lifecycle notification carries: the character `1`.
pub const LIFECYCLE_PAYLOAD_BYTE: u8 = 0x31;

/// A message for the transport to send.
#[derive(Debug, Clone, PartialEq, Eq)]
pub struct PublishRequest {
    /// Target topic.
    pub topic: String,
    /// Payload bytes.
    pub payload: Vec<u8>,
    /// Delivery guarantee.
    pub qos: QoS,
    /// Whether the broker keeps the message for future subscribers.
    pub retain: bool,
}

/// What a [`PublishRequest`] holds.
pub struct PublishView {
    pub topic: Seq<char>,
    pub payload: Seq<u8>,
    pub qos: QoS,
    pub retain: bool,
}

impl View for PublishRequest {
    type V = PublishView;

    open spec fn view(&self) -> PublishView {
        PublishView {
            topic: self.topic@,
            payload: self.payload@,
            qos: self.qos,
            retain: self.retain,
        }
    }
}

/// A subscription for the transport to request.
#[derive(Debug, Clone, Copy)]
pub struct SubscribeRequest<'a> {
    /// Topic filter.
    pub topic: &'a str,
    /// Delivery guarantee.
    pub qos: QoS,
}

/// What a [`SubscribeRequest`] holds.
pub struct SubscribeView {
    pub topic: Seq<char>,
    pub qos: QoS,
}

impl<'a> View for SubscribeRequest<'a> {
    type V = SubscribeView;

    open spec fn view(&self) -> SubscribeView {
        SubscribeView { topic: self.topic@, qos: self.qos }
    }
}

/// How far the construction of a connection has come.
#[derive(Debug, Clone, Copy, PartialEq, Eq, Structural)]
pub enum ConnectPhase {
    /// The transport connection is to be opened. `polls` is the number of
    /// pauses that the wait for the confirmation may take afterwards.
    Opening { polls: u64 },
    /// The transport is open; its confirmation of the connection is awaited
    /// for at most `polls_left` more pauses.
    AwaitingConnection { polls_left: u64 },
    /// The filters are being subscribed; `next` is the position of the
    /// filter to request next.
    Subscribing { next: usize },
    /// The connection is built.
    Ready,
    /// The construction failed with this error.
    Failed(MqttError),
}

/// How far the shutdown sequence has come.
#[derive(Debug, Clone, Copy, PartialEq, Eq, Structural)]
pub enum ShutdownPhase {
    /// No shutdown was asked for.
    Active,
    /// The shutdown notification was handed out for sending; the shutdown
    /// flag is still clear.
    Notifying,
    /// The shutdown flag is set. It is never cleared again.
    Signalled,
}

/// The manager as a value.
pub struct ManagerModel {
    /// Client identifier.
    pub client_id: Seq<char>,
    /// Subscribed filters, in order.
    pub topics: Seq<Seq<char>>,
    /// Progress of the construction.
    pub connect: ConnectPhase,
    /// Progress of the shutdown sequence.
    pub shutdown: ShutdownPhase,
    /// The `connected` flag as the owner last read it.
    pub connected: bool,
}

/// The number of pauses that fit into a connection timeout.
pub open spec fn polls_within(timeout_ms: u64) -> u64 {
    timeout_ms / CONNECTION_POLL_INTERVAL_MS
}

/// The manager that [`MqttManager::new`] builds from a valid configuration
/// and a list of filters.
pub open spec fn initial_model(c: MqttConfigView, topics: Seq<Seq<char>>) -> ManagerModel {
    ManagerModel {
        client_id: c.client_id,
        topics,
        connect: ConnectPhase::Opening { polls: polls_within(timeout_of(c)) },
        shutdown: ShutdownPhase::Active,
        connected: false,
    }
}

/// The phase that follows the wait for the connection: the first
/// subscription, or `Ready` where there is nothing to subscribe.
pub open spec fn phase_after_wait(topics: Seq<Seq<char>>) -> ConnectPhase {
    if topics.len() == 0 {
        ConnectPhase::Ready
    } else {
        ConnectPhase::Subscribing { next: 0 }
    }
}

/// The manager after the transport reported whether it opened the
/// connection. A failure is fatal. Outside the phase `Opening` the report
/// changes nothing.
pub open spec fn opened_of(m: ManagerModel, opened: bool) -> ManagerModel {
    match m.connect {
        ConnectPhase::Opening { polls } => if opened {
            ManagerModel { connect: ConnectPhase::AwaitingConnection { polls_left: polls }, ..m }
        } else {
            ManagerModel { connect: ConnectPhase::Failed(MqttError::Connect), ..m }
        },
        _ => m,
    }
}

/// The manager after one look at the shared `connected` flag, and whether
/// the caller pauses and looks again.
///
/// The wait ends when the flag is set or no pause is left; that the time
/// ran out is no error, the construction goes on. Outside the phase
/// `AwaitingConnection` nothing changes and there is nothing to wait for.
pub open spec fn polled_of(m: ManagerModel, connected: bool) -> (ManagerModel, bool) {
    match m.connect {
        ConnectPhase::AwaitingConnection { polls_left } => if connected || polls_left == 0 {
            (ManagerModel { connect: phase_after_wait(m.topics), connected, ..m }, false)
        } else {
            (
                ManagerModel {
                    connect: ConnectPhase::AwaitingConnection {
                        polls_left: (polls_left - 1) as u64,
                    },
                    connected,
                    ..m
                },
                true,
            )
        },
        _ => (m, false),
    }
}

/// The subscription that the caller requests next, if any: the filter at
/// the current position, with the guarantee at-least-once.
pub open spec fn pending_subscription(m: ManagerModel) -> Option<SubscribeView> {
    match m.connect {
        ConnectPhase::Subscribing { next } => if next < m.topics.len() {
            Some(SubscribeView { topic: m.topics[next as int], qos: QoS::AtLeastOnce })
        } else {
            None
        },
        _ => None,
    }
}

/// The manager after the transport answered the pending subscription, and
/// what the construction has come to: a refusal is fatal, an acceptance
/// moves on to the next filter or, after the last, to `Ready`. In every
/// other phase nothing changes; a construction that failed keeps reporting
/// its error.
pub open spec fn subscribed_of(m: ManagerModel, accepted: bool) -> (
    ManagerModel,
    Result<(), MqttError>,
) {
    match m.connect {
        ConnectPhase::Subscribing { next } => if !accepted {
            (
                ManagerModel { connect: ConnectPhase::Failed(MqttError::Subscribe), ..m },
                Err(MqttError::Subscribe),
            )
        } else if next + 1 < m.topics.len() {
            (
                ManagerModel {
                    connect: ConnectPhase::Subscribing { next: (next + 1) as usize },
                    ..m
                },
                Ok(()),
            )
        } else {
            (ManagerModel { connect: ConnectPhase::Ready, ..m }, Ok(()))
        },
        ConnectPhase::Failed(e) => (m, Err(e)),
        _ => (m, Ok(())),
    }
}

/// The payload of a lifecycle notification: the one character `1`.
pub open spec fn lifecycle_payload() -> Seq<u8> {
    seq![LIFECYCLE_PAYLOAD_BYTE]
}

/// The notification that a client publishes when it has started.
pub open spec fn startup_notice(client_id: Seq<char>) -> PublishView {
    PublishView {
        topic: startup_topic_of(client_id),
        payload: lifecycle_payload(),
        qos: QoS::AtLeastOnce,
        retain: false,
    }
}

/// The notification that a client publishes before it shuts down.
pub open spec fn shutdown_notice(client_id: Seq<char>) -> PublishView {
    PublishView {
        topic: shutdown_topic_of(client_id),
        payload: lifecycle_payload(),
        qos: QoS::AtLeastOnce,
        retain: false,
    }
}

/// The manager after a call for shutdown, and the notification to attempt,
/// if there is one: the first call hands out the shutdown notification and
/// leaves the flag clear; every later call hands out nothing and changes
/// nothing.
pub open spec fn shutdown_of(m: ManagerModel) -> (ManagerModel, Option<PublishView>) {
    match m.shutdown {
        ShutdownPhase::Active => (
            ManagerModel { shutdown: ShutdownPhase::Notifying, ..m },
            Some(shutdown_notice(m.client_id)),
        ),
        _ => (m, None),
    }
}

/// The manager after the attempt to publish the shutdown notification has
/// returned, and whether the caller now sets the shared shutdown flag.
/// The flag is set whether or not the notification was accepted. Where no
/// attempt is outstanding nothing changes.
pub open spec fn notified_of(m: ManagerModel) -> (ManagerModel, bool) {
    match m.shutdown {
        ShutdownPhase::Notifying => (
            ManagerModel { shutdown: ShutdownPhase::Signalled, ..m },
            true,
        ),
        _ => (m, false),
    }
}

/// The owning side of a connection.
#[derive(Debug)]
pub struct MqttManager {
    client_id: String,
    topics: SubscriptionSet,
    connect: ConnectPhase,
    shutdown: ShutdownPhase,
    connected: bool,
}

impl View for MqttManager {
    type V = ManagerModel;

    closed spec fn view(&self) -> ManagerModel {
        ManagerModel {
            client_id: self.client_id@,
            topics: self.topics@,
            connect: self.connect,
            shutdown: self.shutdown,
            connected: self.connected,
        }
    }
}

impl MqttManager {
    /// Starts the construction of a connection to the broker that `config`
    /// names, subscribed to `incoming_topics`.
    ///
    /// A configuration that breaks a rule of
    /// [`config_violation`](crate::config::config_violation) is refused
    /// with the first rule broken. Otherwise the manager stands in the
    /// phase `Opening`: the caller opens the transport with
    /// [`MqttConfig::client_settings`] and reports with
    /// [`MqttManager::transport_opened`].
    pub fn new(config: MqttConfig<'_>, incoming_topics: &[&str]) -> (built: Result<
        Self,
        MqttError,
    >)
        ensures
            match config_violation(config@) {
                Some(e) => built == Err::<Self, MqttError>(MqttError::Configuration(e)),
                None => built is Ok && built->Ok_0@ == initial_model(
                    config@,
                    texts_of(incoming_topics@),
                ),
            },
    {
        match config.validate() {
            Err(e) => Err(MqttError::Configuration(e)),
            Ok(()) => Ok(
                MqttManager {
                    client_id: String::from_str(config.client_id()),
                    topics: SubscriptionSet::new(incoming_topics),
                    connect: ConnectPhase::Opening {
                        polls: config.timeout_ms() / CONNECTION_POLL_INTERVAL_MS,
                    },
                    shutdown: ShutdownPhase::Active,
                    connected: false,
                },
            ),
        }
    }

    /// The client identifier.
    pub fn client_id(&self) -> (id: &str)
        ensures
            id@ == self@.client_id,
    {
        self.client_id.as_str()
    }

    /// The subscribed filters.
    pub fn topics(&self) -> (topics: &SubscriptionSet)
        ensures
            topics@ == self@.topics,
    {
        &self.topics
    }

    /// How far the construction has come.
    pub fn connect_phase(&self) -> (phase: ConnectPhase)
        ensures
            phase == self@.connect,
    {
        self.connect
    }

    /// How far the shutdown sequence has come.
    pub fn shutdown_phase(&self) -> (phase: ShutdownPhase)
        ensures
            phase == self@.shutdown,
    {
        self.shutdown
    }

    /// Whether the connection is built.
    pub fn is_ready(&self) -> (ready: bool)
        ensures
            ready == (self@.connect == ConnectPhase::Ready),
    {
        match self.connect {
            ConnectPhase::Ready => true,
            _ => false,
        }
    }

    /// The `connected` flag as the owner last read it; `false` before the
    /// first look.
    pub fn is_connected(&self) -> (connected: bool)
        ensures
            connected == self@.connected,
    {
        self.connected
    }

    /// Whether the shutdown flag is set.
    pub fn is_shutting_down(&self) -> (flag: bool)
        ensures
            flag == (self@.shutdown == ShutdownPhase::Signalled),
    {
        match self.shutdown {
            ShutdownPhase::Signalled => true,
            _ => false,
        }
    }

    /// Takes the transport's report on opening the connection. On `Err`
    /// the construction has failed for good.
    pub fn transport_opened(&mut self, opened: bool) -> (outcome: Result<(), MqttError>)
        ensures
            final(self)@ == opened_of(old(self)@, opened),
            outcome == match final(self)@.connect {
                ConnectPhase::Failed(e) => Err::<(), MqttError>(e),
                _ => Ok(()),
            },
    {
        if let ConnectPhase::Opening { polls } = self.connect {
            if opened {
                self.connect = ConnectPhase::AwaitingConnection { polls_left: polls };
            } else {
                self.connect = ConnectPhase::Failed(MqttError::Connect);
            }
        }
        match self.connect {
            ConnectPhase::Failed(e) => Err(e),
            _ => Ok(()),
        }
    }

    /// Takes one reading of the shared `connected` flag. On `true` the
    /// caller sleeps for [`CONNECTION_POLL_INTERVAL_MS`] and calls again;
    /// on `false` the wait is over, by confirmation or because the time
    /// ran out, and the subscriptions follow.
    pub fn poll_connection(&mut self, connected: bool) -> (wait: bool)
        ensures
            (final(self)@, wait) == polled_of(old(self)@, connected),
    {
        if let ConnectPhase::AwaitingConnection { polls_left } = self.connect {
            self.connected = connected;
            if connected || polls_left == 0 {
                self.connect = if self.topics.len() == 0 {
                    ConnectPhase::Ready
                } else {
                    ConnectPhase::Subscribing { next: 0 }
                };
                false
            } else {
                self.connect = ConnectPhase::AwaitingConnection { polls_left: polls_left - 1 };
                true
            }
        } else {
            false
        }
    }

    /// The subscription to request from the transport next, or `None`
    /// where none is pending.
    pub fn next_subscription(&self) -> (request: Option<SubscribeRequest<'_>>)
        ensures
            request is Some == pending_subscription(self@) is Some,
            request is Some ==> request->0@ == pending_subscription(self@)->0,
    {
        if let ConnectPhase::Subscribing { next } = self.connect {
            match self.topics.get(next) {
                Some(topic) => Some(SubscribeRequest { topic, qos: QoS::AtLeastOnce }),
                None => None,
            }
        } else {
            None
        }
    }

    /// Takes the transport's answer to the pending subscription. On `Err`
    /// the construction has failed for good.
    pub fn subscription_done(&mut self, accepted: bool) -> (outcome: Result<(), MqttError>)
        ensures
            (final(self)@, outcome) == subscribed_of(old(self)@, accepted),
    {
        match self.connect {
            ConnectPhase::Subscribing { next } => {
                if !accepted {
                    self.connect = ConnectPhase::Failed(MqttError::Subscribe);
                    Err(MqttError::Subscribe)
                } else if next < self.topics.len() && next + 1 < self.topics.len() {
                    self.connect = ConnectPhase::Subscribing { next: next + 1 };
                    Ok(())
                } else {
                    self.connect = ConnectPhase::Ready;
                    Ok(())
                }
            },
            ConnectPhase::Failed(e) => Err(e),
            _ => Ok(()),
        }
    }

    /// The message `payload` for `topic`, with the guarantee at-least-once
    /// and not retained.
    pub fn publish(&self, topic: &str, payload: &str) -> (request: PublishRequest)
        ensures
            request@ == (PublishView {
                topic: topic@,
                payload: payload.spec_bytes(),
                qos: QoS::AtLeastOnce,
                retain: false,
            }),
    {
        self.publish_with(topic, payload.as_bytes(), QoS::AtLeastOnce, false)
    }

    /// The message `payload` for `topic` with the given guarantee and
    /// retain flag.
    pub fn publish_with(&self, topic: &str, payload: &[u8], qos: QoS, retain: bool) -> (request:
        PublishRequest)
        ensures
            request@ == (PublishView { topic: topic@, payload: payload@, qos, retain }),
    {
        PublishRequest { topic: String::from_str(topic), payload: slice_to_vec(payload), qos, retain }
    }

    /// What a publish call returns to the application once the transport
    /// has answered: success when the transport accepted the message for
    /// sending, the error `Publish` when it did not.
    pub fn publish_outcome(accepted: bool) -> (outcome: Result<(), MqttError>)
        ensures
            outcome == if accepted {
                Ok::<(), MqttError>(())
            } else {
                Err::<(), MqttError>(MqttError::Publish)
            },
    {
        if accepted {
            Ok(())
        } else {
            Err(MqttError::Publish)
        }
    }

    /// The startup notification of this client.
    pub fn send_startup_message(&self) -> (request: PublishRequest)
        ensures
            request@ == startup_notice(self@.client_id),
    {
        let mut payload: Vec<u8> = Vec::new();
        payload.push(LIFECYCLE_PAYLOAD_BYTE);
        let request = PublishRequest {
            topic: startup_topic(self.client_id.as_str()),
            payload,
            qos: QoS::AtLeastOnce,
            retain: false,
        };
        assert(request@.payload =~= lifecycle_payload());
        request
    }

    /// The shutdown notification of this client.
    pub fn send_shutdown_message(&self) -> (request: PublishRequest)
        ensures
            request@ == shutdown_notice(self@.client_id),
    {
        let mut payload: Vec<u8> = Vec::new();
        payload.push(LIFECYCLE_PAYLOAD_BYTE);
        let request = PublishRequest {
            topic: shutdown_topic(self.client_id.as_str()),
            payload,
            qos: QoS::AtLeastOnce,
            retain: false,
        };
        assert(request@.payload =~= lifecycle_payload());
        request
    }

    /// Begins the shutdown sequence. The first call returns the shutdown
    /// notification: the caller attempts to publish it and then calls
    /// [`MqttManager::shutdown_notified`], which sets the flag. Any later
    /// call returns `None` and changes nothing.
    pub fn shutdown(&mut self) -> (notice: Option<PublishRequest>)
        ensures
            final(self)@ == shutdown_of(old(self)@).0,
            notice is Some == shutdown_of(old(self)@).1 is Some,
            notice is Some ==> notice->0@ == shutdown_of(old(self)@).1->0,
    {
        match self.shutdown {
            ShutdownPhase::Active => {
                self.shutdown = ShutdownPhase::Notifying;
                Some(self.send_shutdown_message())
            },
            _ => None,
        }
    }

    /// Takes the outcome of the attempt to publish the shutdown
    /// notification and sets the shutdown flag. A failed attempt is not an
    /// error: `delivered` is for the caller's log only. Returns whether the
    /// caller now sets the shared flag.
    pub fn shutdown_notified(&mut self, delivered: bool) -> (raise: bool)
        ensures
            (final(self)@, raise) == notified_of(old(self)@),
    {
        match self.shutdown {
            ShutdownPhase::Notifying => {
                self.shutdown = ShutdownPhase::Signalled;
                true
            },
            _ => false,
        }
    }
}


/// The manager after `k` looks at the `connected` flag that all found it
/// clear.
pub open spec fn after_unconfirmed_polls(m: ManagerModel, k: nat) -> ManagerModel
    decreases k,
{
    if k == 0 {
        m
    } else {
        polled_of(after_unconfirmed_polls(m, (k - 1) as nat), false).0
    }
}

/// The manager after `k` subscriptions that the transport all accepted.
pub open spec fn after_accepted_subscriptions(m: ManagerModel, k: nat) -> ManagerModel
    decreases k,
{
    if k == 0 {
        m
    } else {
        subscribed_of(after_accepted_subscriptions(m, (k - 1) as nat), true).0
    }
}

/// The whole shutdown sequence run once: the call for shutdown, then the
/// report that the attempt to publish has returned. The second component
/// lists the publish attempts that the sequence asked for.
pub open spec fn shutdown_sequence_of(m: ManagerModel) -> (ManagerModel, Seq<PublishView>) {
    let (begun, notice) = shutdown_of(m);
    let (done, _) = notified_of(begun);
    (
        done,
        match notice {
            Some(n) => seq![n],
            None => Seq::empty(),
        },
    )
}

/// The wait for the connection is bounded and never fails: a manager that
/// may pause `p` times and never sees the flag set asks for a pause exactly
/// `p` times; the look after that ends the wait, and the construction goes
/// on with the subscriptions.
pub proof fn law_wait_ends_without_error(m: ManagerModel, p: u64, k: nat)
    requires
        m.connect == (ConnectPhase::AwaitingConnection { polls_left: p }),
        k <= p,
    ensures
        after_unconfirmed_polls(m, k).connect == (ConnectPhase::AwaitingConnection {
            polls_left: (p - k) as u64,
        }),
        after_unconfirmed_polls(m, k).topics == m.topics,
        polled_of(after_unconfirmed_polls(m, k), false).1 == (k < p),
        k == p ==> polled_of(after_unconfirmed_polls(m, k), false).0.connect == phase_after_wait(
            m.topics,
        ),
        k == p ==> !polled_of(after_unconfirmed_polls(m, k), false).0.connected,
    decreases k,
{
    if k > 0 {
        law_wait_ends_without_error(m, p, (k - 1) as nat);
    }
}

/// As soon as a look finds the `connected` flag set the wait is over.
pub proof fn law_confirmation_ends_wait(m: ManagerModel)
    requires
        m.connect is AwaitingConnection,
    ensures
        !polled_of(m, true).1,
        polled_of(m, true).0.connect == phase_after_wait(m.topics),
        polled_of(m, true).0.connected,
{
}

/// Every filter is subscribed, once and in the order of the set, with the
/// guarantee at-least-once: after `k` accepted subscriptions the filter at
/// position `k` is pending, and after the last the manager is ready.
pub proof fn law_subscriptions_in_order(m: ManagerModel, k: nat)
    requires
        m.connect == (ConnectPhase::Subscribing { next: 0 }),
        0 < m.topics.len() <= usize::MAX,
        k <= m.topics.len(),
    ensures
        k < m.topics.len() ==> after_accepted_subscriptions(m, k).connect == (
        ConnectPhase::Subscribing { next: k as usize }),
        k < m.topics.len() ==> pending_subscription(after_accepted_subscriptions(m, k)) == Some(
            SubscribeView { topic: m.topics[k as int], qos: QoS::AtLeastOnce },
        ),
        k == m.topics.len() ==> after_accepted_subscriptions(m, k).connect == ConnectPhase::Ready,
        after_accepted_subscriptions(m, k).topics == m.topics,
    decreases k,
{
    if k > 0 {
        law_subscriptions_in_order(m, (k - 1) as nat);
    }
}

/// A refused subscription ends the construction with the error
/// `Subscribe`, whatever was subscribed before, and the manager keeps
/// reporting it.
pub proof fn law_refused_subscription_is_fatal(m: ManagerModel, accepted: bool)
    requires
        m.connect is Subscribing,
    ensures
        subscribed_of(m, false).1 == Err::<(), MqttError>(MqttError::Subscribe),
        subscribed_of(subscribed_of(m, false).0, accepted).1 == Err::<(), MqttError>(
            MqttError::Subscribe,
        ),
        subscribed_of(subscribed_of(m, false).0, accepted).0 == subscribed_of(m, false).0,
{
}

/// Shutdown is idempotent. Run twice in a row, the shutdown sequence asks
/// for one publish attempt at most, and for none the second time; the flag
/// is set after the first run and after the second; the second run changes
/// nothing. A manager that was active is asked for exactly its shutdown
/// notification. Calling for shutdown twice without the report in between
/// hands out nothing the second time either.
pub proof fn law_shutdown_idempotent(m: ManagerModel)
    ensures
        ({
            let (once, first) = shutdown_sequence_of(m);
            let (twice, second) = shutdown_sequence_of(once);
            &&& once.shutdown == ShutdownPhase::Signalled
            &&& twice == once
            &&& second.len() == 0
            &&& first.len() + second.len() <= 1
            &&& (m.shutdown == ShutdownPhase::Active ==> first == seq![
                shutdown_notice(m.client_id),
            ])
        }),
        shutdown_of(shutdown_of(m).0).1 is None,
        shutdown_of(shutdown_of(m).0).0 == shutdown_of(m).0,
{
}

/// The shutdown flag is set only by the report that follows the call for
/// shutdown: without a notification handed out before, the report changes
/// nothing.
pub proof fn law_flag_follows_notice(m: ManagerModel)
    ensures
        notified_of(m).1 ==> m.shutdown == ShutdownPhase::Notifying,
        m.shutdown == ShutdownPhase::Active ==> notified_of(m).0 == m,
        m.shutdown == ShutdownPhase::Signalled ==> notified_of(m).0 == m && shutdown_of(m).0 == m,
{
}

} // verus!
