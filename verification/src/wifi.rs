//! Wi-Fi: the connection settings with their limits, and the decisions of
//! the two waits that bring a station up, connecting with a status light
//! and waiting for an address. The caller drives the radio, the light and
//! the clock; the functions here say what to do next.

use vstd::prelude::*;
use vstd::string::StringSliceAdditionalSpecFns;

verus! {

/// The longest SSID a station configuration holds, in bytes.
pub const MAX_SSID_BYTES: usize = 32;

/// The longest password a station configuration holds, in bytes.
pub const MAX_PASSWORD_BYTES: usize = 64;

/// Connection timeout used when the configuration names none, in seconds.
pub const DEFAULT_WIFI_TIMEOUT_SECS: u64 = 10;

/// The pause after each pulse of the status light, in milliseconds.
pub const PULSE_INTERVAL_MS: u64 = 50;

/// The number of red pulses that announce a timeout.
pub const FAILURE_PULSES: u32 = 20;

/// The pause between two looks for an address, in milliseconds.
pub const IP_POLL_INTERVAL_MS: u64 = 100;

/// A colour of the status light.
#[derive(Debug, Clone, Copy, PartialEq, Eq, Structural)]
pub struct Rgb {
    pub r: u8,
    pub g: u8,
    pub b: u8,
}

/// The colour pulsed while the station connects: blue.
pub open spec fn connecting_color() -> Rgb {
    Rgb { r: 0, g: 0, b: 255 }
}

/// The colour pulsed when the connection timed out: red.
pub open spec fn failure_color() -> Rgb {
    Rgb { r: 255, g: 0, b: 0 }
}

/// The colour shown once the station is connected: a dim green.
pub open spec fn connected_color() -> Rgb {
    Rgb { r: 0, g: 20, b: 0 }
}

/// Why a Wi-Fi configuration is refused.
#[derive(Debug, Clone, Copy, PartialEq, Eq, Structural)]
pub enum WiFiConfigError {
    /// The SSID is longer than [`MAX_SSID_BYTES`].
    SsidTooLong,
    /// The password is longer than [`MAX_PASSWORD_BYTES`].
    PasswordTooLong,
}

/// Why connecting with the status light failed.
#[derive(Debug, Clone, Copy, PartialEq, Eq, Structural)]
pub enum WiFiError {
    /// The station was not connected within the timeout.
    Timeout { secs: u64 },
    /// The status light refused a colour.
    Led,
    /// The network interface did not come up, or the link could not be
    /// queried once it had.
    Driver,
}

/// Wi-Fi connection configuration.
#[derive(Debug, Clone, Copy)]
pub struct WiFiConfig<'a> {
    /// Network SSID.
    pub ssid: &'a str,
    /// Network password.
    pub password: &'a str,
    /// Connection timeout in seconds; `None` selects the default.
    pub connection_timeout_secs: Option<u64>,
}

/// The first limit that a configuration exceeds, if it exceeds one. The
/// lengths count bytes of the UTF-8 encoding.
pub open spec fn wifi_violation(ssid: Seq<u8>, password: Seq<u8>) -> Option<WiFiConfigError> {
    if ssid.len() > MAX_SSID_BYTES {
        Some(WiFiConfigError::SsidTooLong)
    } else if password.len() > MAX_PASSWORD_BYTES {
        Some(WiFiConfigError::PasswordTooLong)
    } else {
        None
    }
}

impl<'a> WiFiConfig<'a> {
    /// A configuration with the default timeout.
    pub fn new(ssid: &'a str, password: &'a str) -> (cfg: Self)
        ensures
            cfg.ssid@ == ssid@,
            cfg.password@ == password@,
            cfg.connection_timeout_secs is None,
    {
        WiFiConfig { ssid, password, connection_timeout_secs: None }
    }

    /// Sets the connection timeout, in seconds.
    pub fn with_timeout(self, secs: u64) -> (cfg: Self)
        ensures
            cfg.ssid@ == self.ssid@,
            cfg.password@ == self.password@,
            cfg.connection_timeout_secs == Some(secs),
    {
        WiFiConfig { ssid: self.ssid, password: self.password, connection_timeout_secs: Some(secs) }
    }

    /// The timeout in force, in seconds.
    pub open spec fn timeout_of(&self) -> u64 {
        match self.connection_timeout_secs {
            Some(secs) => secs,
            None => DEFAULT_WIFI_TIMEOUT_SECS,
        }
    }

    /// The connection timeout in force: the one set, else
    /// [`DEFAULT_WIFI_TIMEOUT_SECS`].
    pub fn timeout_secs(&self) -> (secs: u64)
        ensures
            secs == self.timeout_of(),
    {
        match self.connection_timeout_secs {
            Some(secs) => secs,
            None => DEFAULT_WIFI_TIMEOUT_SECS,
        }
    }

    /// Checks SSID and password against the limits of a station
    /// configuration and names the first one exceeded.
    pub fn validate(&self) -> (checked: Result<(), WiFiConfigError>)
        ensures
            checked == match wifi_violation(self.ssid.spec_bytes(), self.password.spec_bytes()) {
                Some(e) => Err::<(), WiFiConfigError>(e),
                None => Ok(()),
            },
    {
        if self.ssid.as_bytes().len() > MAX_SSID_BYTES {
            Err(WiFiConfigError::SsidTooLong)
        } else if self.password.as_bytes().len() > MAX_PASSWORD_BYTES {
            Err(WiFiConfigError::PasswordTooLong)
        } else {
            Ok(())
        }
    }
}

/// What a query of the link returned.
#[derive(Debug, Clone, Copy, PartialEq, Eq, Structural)]
pub enum LinkStatus {
    /// The station is connected.
    Up,
    /// The station is not connected.
    Down,
    /// The query failed.
    Error,
}

/// Where connecting with the status light stands. Each state awaits the
/// outcome of one action of the caller; see [`action_of`].
#[derive(Debug, Clone, Copy, PartialEq, Eq, Structural)]
pub enum LedConnectState {
    /// A round begins: the clock is to be read. `started` tells whether a
    /// connection attempt is under way.
    AwaitingClock { started: bool },
    /// A connection attempt is to be started.
    Starting,
    /// The link is to be queried.
    Checking,
    /// The round ends with a blue pulse.
    Pulsing { started: bool },
    /// The time ran out; `left` red pulses are still to be shown.
    FailurePulsing { left: u32 },
    /// The station is connected; the network interface is to come up.
    AwaitingNetif,
    /// The interface is up; the link is queried once more.
    Confirming,
    /// The light is to turn green.
    Lighting,
    /// Connected.
    Done,
    /// Failed for good.
    Failed(WiFiError),
}

/// What the caller does next.
#[derive(Debug, Clone, Copy, PartialEq, Eq)]
pub enum LedConnectAction {
    /// Read the time elapsed since connecting began and report it as
    /// [`LedConnectEvent::Clock`].
    ReadClock,
    /// Start a connection attempt and report whether it started as
    /// [`LedConnectEvent::ConnectStarted`].
    StartConnect,
    /// Query the link and report as [`LedConnectEvent::Link`].
    QueryLink,
    /// Show the next step of the pulse effect in this colour, report as
    /// [`LedConnectEvent::LedSet`] and, if the light took it, pause for
    /// [`PULSE_INTERVAL_MS`].
    Pulse(Rgb),
    /// Wait for the network interface to come up and report as
    /// [`LedConnectEvent::NetifUp`].
    WaitNetif,
    /// Show this colour steadily and report as [`LedConnectEvent::LedSet`].
    SetColor(Rgb),
    /// Return: connecting has ended, with success or with this error.
    Finish(Result<(), WiFiError>),
}

/// What the caller reports.
#[derive(Debug, Clone, Copy, PartialEq, Eq, Structural)]
pub enum LedConnectEvent {
    /// The whole seconds elapsed since connecting began.
    Clock { elapsed_secs: u64 },
    /// Whether the connection attempt could be started.
    ConnectStarted { ok: bool },
    /// The state of the link.
    Link(LinkStatus),
    /// Whether the status light took the colour.
    LedSet { ok: bool },
    /// Whether the network interface came up.
    NetifUp { ok: bool },
}

/// Connecting with the status light, as a value: the state and the timeout
/// in seconds.
pub struct LedConnectModel {
    pub state: LedConnectState,
    pub timeout_secs: u64,
}

/// The action that a state awaits the outcome of.
pub open spec fn action_of(state: LedConnectState) -> LedConnectAction {
    match state {
        LedConnectState::AwaitingClock { .. } => LedConnectAction::ReadClock,
        LedConnectState::Starting => LedConnectAction::StartConnect,
        LedConnectState::Checking => LedConnectAction::QueryLink,
        LedConnectState::Pulsing { .. } => LedConnectAction::Pulse(connecting_color()),
        LedConnectState::FailurePulsing { .. } => LedConnectAction::Pulse(failure_color()),
        LedConnectState::AwaitingNetif => LedConnectAction::WaitNetif,
        LedConnectState::Confirming => LedConnectAction::QueryLink,
        LedConnectState::Lighting => LedConnectAction::SetColor(connected_color()),
        LedConnectState::Done => LedConnectAction::Finish(Ok(())),
        LedConnectState::Failed(e) => LedConnectAction::Finish(Err(e)),
    }
}

/// The state after a report. A report that the state does not await
/// changes nothing.
///
/// A round reads the clock first; once the timeout has elapsed the red
/// pulses begin, and after the last of them connecting has failed. Within
/// the time, an attempt is started unless one is under way; an attempt that
/// could not be started is tried again in the next round. With an attempt
/// under way the link is queried: up ends the rounds, down goes on, a failed
/// query gives the attempt up. Every round that goes on ends with a blue
/// pulse. After the rounds the interface has to come up; then the link is
/// queried once more, and only a station that is still connected turns the
/// light green. A colour that the light refuses ends everything.
pub open spec fn next_of(m: LedConnectModel, event: LedConnectEvent) -> LedConnectState {
    match (m.state, event) {
        (
            LedConnectState::AwaitingClock { started },
            LedConnectEvent::Clock { elapsed_secs },
        ) => if elapsed_secs >= m.timeout_secs {
            LedConnectState::FailurePulsing { left: FAILURE_PULSES }
        } else if started {
            LedConnectState::Checking
        } else {
            LedConnectState::Starting
        },
        (LedConnectState::Starting, LedConnectEvent::ConnectStarted { ok }) => if ok {
            LedConnectState::Checking
        } else {
            LedConnectState::Pulsing { started: false }
        },
        (LedConnectState::Checking, LedConnectEvent::Link(status)) => match status {
            LinkStatus::Up => LedConnectState::AwaitingNetif,
            LinkStatus::Down => LedConnectState::Pulsing { started: true },
            LinkStatus::Error => LedConnectState::Pulsing { started: false },
        },
        (LedConnectState::Pulsing { started }, LedConnectEvent::LedSet { ok }) => if ok {
            LedConnectState::AwaitingClock { started }
        } else {
            LedConnectState::Failed(WiFiError::Led)
        },
        (LedConnectState::FailurePulsing { left }, LedConnectEvent::LedSet { ok }) => if !ok {
            LedConnectState::Failed(WiFiError::Led)
        } else if left > 1 {
            LedConnectState::FailurePulsing { left: (left - 1) as u32 }
        } else {
            LedConnectState::Failed(WiFiError::Timeout { secs: m.timeout_secs })
        },
        (LedConnectState::AwaitingNetif, LedConnectEvent::NetifUp { ok }) => if ok {
            LedConnectState::Confirming
        } else {
            LedConnectState::Failed(WiFiError::Driver)
        },
        (LedConnectState::Confirming, LedConnectEvent::Link(status)) => match status {
            LinkStatus::Up => LedConnectState::Lighting,
            LinkStatus::Down => LedConnectState::Done,
            LinkStatus::Error => LedConnectState::Failed(WiFiError::Driver),
        },
        (LedConnectState::Lighting, LedConnectEvent::LedSet { ok }) => if ok {
            LedConnectState::Done
        } else {
            LedConnectState::Failed(WiFiError::Led)
        },
        _ => m.state,
    }
}

/// Connecting to the network with a status light: blue pulses while the
/// station connects, red pulses when the time runs out, green once it is
/// connected.
#[derive(Debug, Clone, Copy)]
pub struct LedConnect {
    state: LedConnectState,
    timeout_secs: u64,
}

impl View for LedConnect {
    type V = LedConnectModel;

    closed spec fn view(&self) -> LedConnectModel {
        LedConnectModel { state: self.state, timeout_secs: self.timeout_secs }
    }
}

impl LedConnect {
    /// Begins connecting: no attempt is under way and the clock is read
    /// first.
    pub fn new(timeout_secs: u64) -> (machine: Self)
        ensures
            machine@ == (LedConnectModel {
                state: LedConnectState::AwaitingClock { started: false },
                timeout_secs,
            }),
    {
        LedConnect { state: LedConnectState::AwaitingClock { started: false }, timeout_secs }
    }

    /// The state.
    pub fn state(&self) -> (state: LedConnectState)
        ensures
            state == self@.state,
    {
        self.state
    }

    /// The action that is awaited.
    pub fn pending(&self) -> (action: LedConnectAction)
        ensures
            action == action_of(self@.state),
    {
        match self.state {
            LedConnectState::AwaitingClock { .. } => LedConnectAction::ReadClock,
            LedConnectState::Starting => LedConnectAction::StartConnect,
            LedConnectState::Checking => LedConnectAction::QueryLink,
            LedConnectState::Pulsing { .. } => LedConnectAction::Pulse(Rgb { r: 0, g: 0, b: 255 }),
            LedConnectState::FailurePulsing { .. } => LedConnectAction::Pulse(
                Rgb { r: 255, g: 0, b: 0 },
            ),
            LedConnectState::AwaitingNetif => LedConnectAction::WaitNetif,
            LedConnectState::Confirming => LedConnectAction::QueryLink,
            LedConnectState::Lighting => LedConnectAction::SetColor(Rgb { r: 0, g: 20, b: 0 }),
            LedConnectState::Done => LedConnectAction::Finish(Ok(())),
            LedConnectState::Failed(e) => LedConnectAction::Finish(Err(e)),
        }
    }

    /// Takes a report and answers with the action to carry out next.
    pub fn advance(&mut self, event: LedConnectEvent) -> (action: LedConnectAction)
        ensures
            final(self)@.state == next_of(old(self)@, event),
            final(self)@.timeout_secs == old(self)@.timeout_secs,
            action == action_of(final(self)@.state),
    {
        let next = match (self.state, event) {
            (
                LedConnectState::AwaitingClock { started },
                LedConnectEvent::Clock { elapsed_secs },
            ) => {
                if elapsed_secs >= self.timeout_secs {
                    LedConnectState::FailurePulsing { left: FAILURE_PULSES }
                } else if started {
                    LedConnectState::Checking
                } else {
                    LedConnectState::Starting
                }
            },
            (LedConnectState::Starting, LedConnectEvent::ConnectStarted { ok }) => {
                if ok {
                    LedConnectState::Checking
                } else {
                    LedConnectState::Pulsing { started: false }
                }
            },
            (LedConnectState::Checking, LedConnectEvent::Link(status)) => match status {
                LinkStatus::Up => LedConnectState::AwaitingNetif,
                LinkStatus::Down => LedConnectState::Pulsing { started: true },
                LinkStatus::Error => LedConnectState::Pulsing { started: false },
            },
            (LedConnectState::Pulsing { started }, LedConnectEvent::LedSet { ok }) => {
                if ok {
                    LedConnectState::AwaitingClock { started }
                } else {
                    LedConnectState::Failed(WiFiError::Led)
                }
            },
            (LedConnectState::FailurePulsing { left }, LedConnectEvent::LedSet { ok }) => {
                if !ok {
                    LedConnectState::Failed(WiFiError::Led)
                } else if left > 1 {
                    LedConnectState::FailurePulsing { left: left - 1 }
                } else {
                    LedConnectState::Failed(WiFiError::Timeout { secs: self.timeout_secs })
                }
            },
            (LedConnectState::AwaitingNetif, LedConnectEvent::NetifUp { ok }) => {
                if ok {
                    LedConnectState::Confirming
                } else {
                    LedConnectState::Failed(WiFiError::Driver)
                }
            },
            (LedConnectState::Confirming, LedConnectEvent::Link(status)) => match status {
                LinkStatus::Up => LedConnectState::Lighting,
                LinkStatus::Down => LedConnectState::Done,
                LinkStatus::Error => LedConnectState::Failed(WiFiError::Driver),
            },
            (LedConnectState::Lighting, LedConnectEvent::LedSet { ok }) => {
                if ok {
                    LedConnectState::Done
                } else {
                    LedConnectState::Failed(WiFiError::Led)
                }
            },
            (state, _) => state,
        };
        self.state = next;
        self.pending()
    }
}

/// The state after `k` pulses that the light all took.
pub open spec fn after_pulses(m: LedConnectModel, k: nat) -> LedConnectState
    decreases k,
{
    if k == 0 {
        m.state
    } else {
        next_of(
            LedConnectModel { state: after_pulses(m, (k - 1) as nat), ..m },
            LedConnectEvent::LedSet { ok: true },
        )
    }
}

/// A timeout is announced in full: once the time has run out, the light
/// pulses red [`FAILURE_PULSES`] times, and only then connecting fails
/// with `Timeout` and the timeout that was set.
pub proof fn law_timeout_pulses_then_fails(m: LedConnectModel, elapsed_secs: u64, k: nat)
    requires
        m.state is AwaitingClock,
        elapsed_secs >= m.timeout_secs,
        k <= FAILURE_PULSES,
    ensures
        ({
            let timed_out = LedConnectModel {
                state: next_of(m, LedConnectEvent::Clock { elapsed_secs }),
                ..m
            };
            &&& k < FAILURE_PULSES ==> after_pulses(timed_out, k) == (
            LedConnectState::FailurePulsing { left: (FAILURE_PULSES - k) as u32 })
            &&& k < FAILURE_PULSES ==> action_of(after_pulses(timed_out, k))
                == LedConnectAction::Pulse(failure_color())
            &&& k == FAILURE_PULSES ==> after_pulses(timed_out, k) == LedConnectState::Failed(
                WiFiError::Timeout { secs: m.timeout_secs },
            )
        }),
    decreases k,
{
    if k > 0 {
        law_timeout_pulses_then_fails(m, elapsed_secs, (k - 1) as nat);
    }
}

/// Connecting ends for good: once done or failed, no report changes the
/// state.
pub proof fn law_led_connect_ends(m: LedConnectModel, event: LedConnectEvent)
    requires
        m.state is Done || m.state is Failed,
    ensures
        next_of(m, event) == m.state,
        action_of(m.state) is Finish,
{
}

/// An IPv4 address, by its four octets.
#[derive(Debug, Clone, Copy, PartialEq, Eq, Structural)]
pub struct Ipv4 {
    pub a: u8,
    pub b: u8,
    pub c: u8,
    pub d: u8,
}

impl Ipv4 {
    /// Whether this is the address `0.0.0.0`, which stands for "none".
    pub open spec fn is_unspecified(self) -> bool {
        self.a == 0 && self.b == 0 && self.c == 0 && self.d == 0
    }
}

/// What the wait for an address does after a look.
#[derive(Debug, Clone, Copy, PartialEq, Eq, Structural)]
pub enum IpStep {
    /// The station has this address.
    Assigned(Ipv4),
    /// The timeout elapsed without an address.
    TimedOut,
    /// Pause for [`IP_POLL_INTERVAL_MS`] and look again.
    Retry,
}

/// The decision after a look: an address that is not `0.0.0.0` is the
/// result at once, even past the timeout; otherwise the wait goes on until
/// the timeout has elapsed.
pub open spec fn ip_step_of(address: Option<Ipv4>, elapsed_ms: u64, timeout_ms: u64) -> IpStep {
    if address is Some && !address->0.is_unspecified() {
        IpStep::Assigned(address->0)
    } else if elapsed_ms >= timeout_ms {
        IpStep::TimedOut
    } else {
        IpStep::Retry
    }
}

/// Decides what the wait for an address does next. `address` is the
/// station's address if the link is up, `None` if it is down; `elapsed_ms`
/// is the time since the wait began.
pub fn ip_poll(address: Option<Ipv4>, elapsed_ms: u64, timeout_ms: u64) -> (step: IpStep)
    ensures
        step == ip_step_of(address, elapsed_ms, timeout_ms),
{
    if let Some(ip) = address {
        if !(ip.a == 0 && ip.b == 0 && ip.c == 0 && ip.d == 0) {
            return IpStep::Assigned(ip);
        }
    }
    if elapsed_ms >= timeout_ms {
        IpStep::TimedOut
    } else {
        IpStep::Retry
    }
}

} // verus!
