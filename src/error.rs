use vstd::prelude::*;

verus! {

/// The kinds of failure that the controller and the supervisor report.
#[derive(Clone, Debug, PartialEq, Eq)]
pub enum MprisError {
    /// The bus connection failed; the text is the bus library's own message.
    ConnectionFailed(String),
    /// A standard bus interface call failed; the text is its message.
    FdoError(String),
    /// No player with the daemon's service-name prefix is on the bus.
    PlayerNotFound,
    /// A command did not answer in time; the duration is in milliseconds.
    Timeout(u64),
    SpotifydNotRunning,
    /// A command was issued before a connection was established.
    NotConnected,
    /// An operating-system call failed; the text is its message.
    Io(String),
    MetadataParse(String),
    ProcessSpawn(String),
    /// The daemon did not appear on the bus in time.
    RegistrationTimeout,
}

} // verus!
