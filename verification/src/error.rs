//! The errors of the connection lifecycle.

use vstd::prelude::*;

use crate::config::ConfigError;

verus! {

/// Why building a connection failed, or why a message was not accepted.
#[derive(Debug, Clone, Copy, PartialEq, Eq, Structural)]
pub enum MqttError {
    /// The configuration is invalid. Fatal; nothing was attempted.
    Configuration(ConfigError),
    /// The transport could not open the connection. Fatal; not retried.
    Connect,
    /// The transport refused a subscription while the connection was being
    /// built. Fatal to the construction; the transport connection is left
    /// as it is.
    Subscribe,
    /// The transport did not accept a message for sending. The caller
    /// decides whether to try again.
    Publish,
}

impl MqttError {
    /// Whether the error ends the construction of a connection, as opposed
    /// to one that is returned per call and leaves the connection usable.
    pub open spec fn is_fatal(self) -> bool {
        !(self is Publish)
    }

    /// `true` for every error but `Publish`.
    pub fn fatal(&self) -> (fatal: bool)
        ensures
            fatal == self.is_fatal(),
    {
        match self {
            MqttError::Publish => false,
            _ => true,
        }
    }
}

} // verus!
